//! Parameters that the paths of requests carry, by resource.

pub mod branches;
pub mod organization_projects;
pub mod organizations;
pub mod projects;
pub mod tokens;
