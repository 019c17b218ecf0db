//! The handle through which the program listens to the keyboard.

use vstd::prelude::*;

verus! {

/// Hands out keyboard listeners; it holds no state of its own.
#[derive(Default)]
pub struct KeydownService {}

impl KeydownService {
    pub fn new() -> (r: KeydownService)
        ensures
            r == (KeydownService {}),
    {
        KeydownService {}
    }
}

} // verus!
