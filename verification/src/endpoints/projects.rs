//! Requests on projects.

use vstd::prelude::*;
use crate::resource_id::ResourceId;

verus! {

/// Names the organization whose projects are listed or added to.
#[derive(Clone, Debug)]
pub struct GetDirParams {
    pub organization: ResourceId,
}

/// Names one project of an organization.
#[derive(Clone, Debug)]
pub struct GetOneParams {
    pub organization: ResourceId,
    pub project: ResourceId,
}

/// Names one project, whatever its organization.
#[derive(Clone, Debug)]
pub struct GetOneProjectParams {
    pub project: ResourceId,
}

} // verus!
