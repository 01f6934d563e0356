//! Small bodies of requests and responses.

use vstd::prelude::*;

verus! {

/// A body without content.
#[derive(Clone, Copy, Debug, PartialEq, Eq)]
pub struct JsonEmpty {}

impl Default for JsonEmpty {
    fn default() -> (empty: JsonEmpty)
        ensures
            empty == (JsonEmpty {  }),
    {
        JsonEmpty {  }
    }
}

/// Whether a user holds the permission that was asked about.
#[derive(Clone, Copy, Debug, PartialEq, Eq)]
pub struct JsonAllowed {
    pub allowed: bool,
}

} // verus!
