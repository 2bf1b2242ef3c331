//! The per-request timeout setting.
use vstd::prelude::*;

verus! {

/// Marks that the authenticated request is sent with the timeout given in the
/// request options; it holds no value of its own.
pub struct Timeout {}

impl Timeout {
    pub fn new() -> (r: Timeout) {
        Timeout {}
    }
}

} // verus!
