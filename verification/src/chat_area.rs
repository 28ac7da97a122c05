//! The conversation area.  It holds no state yet and consumes no
//! events; drawing it is the caller's concern.

use vstd::prelude::*;

verus! {

pub struct ChatArea {}

impl ChatArea {
    pub fn new() -> (r: ChatArea)
    {
        ChatArea {}
    }
}

} // verus!
