//! Borrowed results: picking the longer of two string slices, and an
//! excerpt that borrows from its source text.

use vstd::prelude::*;
use vstd::string::StringSliceAdditionalSpecFns;

verus! {

/// The longer of the two slices, measured in bytes as the slices store
/// them; `y` wins ties.
pub fn longest<'a>(x: &'a str, y: &'a str) -> (r: &'a str)
    ensures
        r@ == if x.spec_bytes().len() > y.spec_bytes().len() {
            x@
        } else {
            y@
        },
{
    if x.as_bytes().len() > y.as_bytes().len() {
        x
    } else {
        y
    }
}

/// An excerpt borrowed from a longer text.
pub struct ImportantExcerpt<'a> {
    /// The borrowed passage.
    pub part: &'a str,
}

impl<'a> ImportantExcerpt<'a> {
    /// The excerpt's importance level.
    pub fn level(&self) -> (r: i32)
        ensures
            r == 3,
    {
        3
    }

    /// The borrowed passage itself.
    pub fn announce_and_return_part(&self, announcement: &str) -> (r: &str)
        ensures
            r@ == self.part@,
    {
        let _ = announcement;
        self.part
    }
}

} // verus!
