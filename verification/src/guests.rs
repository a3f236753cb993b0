//! The host's stand at the second entrance: every arriving guest goes
//! straight onto the waitlist.

use vstd::prelude::*;

verus! {

/// Put the party on the host's waitlist.
pub fn add_to_waitlist() {
}

/// A guest arrives and is put on the waitlist.
pub fn eat_at_restaurant() {
    add_to_waitlist();
}

} // verus!
