//! Users and the roles that they hold in organizations.

use vstd::prelude::*;
use crate::organization::InsertOrganization;
use crate::resource_id::random_uuid;

verus! {

/// A row to be added to the table of users.
#[derive(Clone, Debug)]
pub struct InsertUser {
    pub uuid: String,
    pub name: String,
    pub slug: String,
    pub email: String,
}

/// A row to be added to the table of roles in organizations.
#[derive(Clone, Debug)]
pub struct InsertOrganizationRole {
    pub user_id: i32,
    pub organization_id: i32,
    pub role: String,
}

/// A row of the table of roles in organizations.
#[derive(Clone, Debug)]
pub struct QueryOrganizationRole {
    pub id: i32,
    pub user_id: i32,
    pub organization_id: i32,
    pub role: String,
}

impl InsertOrganization {
    /// The organization that every new user gets: it takes the user's name
    /// and slug, and a random identifier.
    pub fn from_user(insert_user: &InsertUser) -> (row: InsertOrganization)
        ensures
            row.uuid@.len() == 36,
            row.name == insert_user.name,
            row.slug == insert_user.slug,
    {
        InsertOrganization {
            uuid: random_uuid(),
            name: insert_user.name.clone(),
            slug: insert_user.slug.clone(),
        }
    }
}

} // verus!
