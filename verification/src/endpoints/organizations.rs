//! Requests on organizations.

use vstd::prelude::*;
use crate::endpoint::{Endpoint, Organization, PathParam, Zero};
use crate::organization::JsonOrganizationPermission;
use crate::resource_id::ResourceId;

verus! {

/// Names one organization.
#[derive(Clone, Debug)]
pub struct GetOneParams {
    pub organization: ResourceId,
}

/// Names an organization and the permission that is asked about.
#[derive(Clone, Debug)]
pub struct GetAllowedParams {
    pub organization: ResourceId,
    pub permission: JsonOrganizationPermission,
}

impl GetOneParams {
    /// The path of the organization.
    pub fn endpoint(&self) -> (endpoint: Endpoint)
        ensures
            endpoint == Endpoint::Zero(
                Some(Zero::Organizations(Some(PathParam(self.organization.0, None)))),
            ),
    {
        Endpoint::Zero(Some(Zero::Organizations(Some(PathParam(self.organization.0.clone(), None)))))
    }
}

impl GetAllowedParams {
    /// The path under which the permission is asked about.
    pub fn endpoint(&self) -> (endpoint: Endpoint)
        ensures
            endpoint == Endpoint::Zero(
                Some(
                    Zero::Organizations(
                        Some(
                            PathParam(
                                self.organization.0,
                                Some(Organization::Allowed(Some(self.permission))),
                            ),
                        ),
                    ),
                ),
            ),
    {
        Endpoint::Zero(
            Some(
                Zero::Organizations(
                    Some(
                        PathParam(
                            self.organization.0.clone(),
                            Some(Organization::Allowed(Some(self.permission))),
                        ),
                    ),
                ),
            ),
        )
    }
}

} // verus!
