//! Requests on the projects of an organization.

use vstd::prelude::*;
use crate::endpoint::{Endpoint, Organization, PathParam, Zero};
use crate::resource_id::ResourceId;

verus! {

/// Names the organization whose projects are listed or added to.
#[derive(Clone, Debug)]
pub struct DirPath {
    pub organization: ResourceId,
}

/// Names one project of an organization.
#[derive(Clone, Debug)]
pub struct OnePath {
    pub organization: ResourceId,
    pub project: ResourceId,
}

impl DirPath {
    /// The path of the projects of the organization.
    pub fn endpoint(&self) -> (endpoint: Endpoint)
        ensures
            endpoint == Endpoint::Zero(
                Some(
                    Zero::Organizations(
                        Some(PathParam(self.organization.0, Some(Organization::Projects(None)))),
                    ),
                ),
            ),
    {
        Endpoint::Zero(
            Some(
                Zero::Organizations(
                    Some(PathParam(self.organization.0.clone(), Some(Organization::Projects(None)))),
                ),
            ),
        )
    }
}

impl OnePath {
    /// The path of the project within its organization.
    pub fn endpoint(&self) -> (endpoint: Endpoint)
        ensures
            endpoint == Endpoint::Zero(
                Some(
                    Zero::Organizations(
                        Some(
                            PathParam(
                                self.organization.0,
                                Some(Organization::Projects(Some(PathParam(self.project.0, None)))),
                            ),
                        ),
                    ),
                ),
            ),
    {
        Endpoint::Zero(
            Some(
                Zero::Organizations(
                    Some(
                        PathParam(
                            self.organization.0.clone(),
                            Some(
                                Organization::Projects(
                                    Some(PathParam(self.project.0.clone(), None)),
                                ),
                            ),
                        ),
                    ),
                ),
            ),
        )
    }
}

} // verus!
