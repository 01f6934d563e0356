//! Requests on the branches of a project.

use vstd::prelude::*;
use crate::resource_id::ResourceId;

verus! {

/// Names the project whose branches are listed or added to.
#[derive(Clone, Debug)]
pub struct GetLsParams {
    pub project: ResourceId,
}

/// Names one branch of a project.
#[derive(Clone, Debug)]
pub struct GetOneParams {
    pub project: ResourceId,
    pub branch: ResourceId,
}

} // verus!
