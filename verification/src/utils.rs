//! The prompt of the interactive masq command line, and the maker of its
//! line readers.

use vstd::prelude::*;

verus! {

/// The prompt that the interactive masq command line shows.
pub const MASQ_PROMPT: &'static str = "masq> ";

/// The maker of masq's line readers: interactive ones that edit lines with
/// history, and ones that read standard input.
pub struct BufReadFactoryReal {}

impl BufReadFactoryReal {
    /// The maker of line readers.
    pub fn new() -> (r: BufReadFactoryReal)
        ensures
            r == (BufReadFactoryReal {}),
    {
        BufReadFactoryReal {}
    }
}

} // verus!
