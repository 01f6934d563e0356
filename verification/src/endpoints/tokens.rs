//! Requests on the tokens of a user.

use vstd::prelude::*;
use crate::resource_id::ResourceId;

verus! {

/// Names the user whose tokens are listed or added to.
#[derive(Clone, Debug)]
pub struct DirPath {
    pub user: ResourceId,
}

/// Names one token of a user, by its identifier.
#[derive(Clone, Debug)]
pub struct OnePath {
    pub user: ResourceId,
    pub token: String,
}

} // verus!
