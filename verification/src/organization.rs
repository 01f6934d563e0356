//! Organizations: the rows that hold them and the forms in which they are
//! submitted and returned.

use vstd::prelude::*;
use crate::lookup::{self, is_id_of, is_uuid_of, Keyed};
use crate::resource_id::{
    canonical_uuid, check_non_empty, check_slug, is_slug, text_of, uuid_hyphenated, ApiError,
    FilterView, ResourceFilter, ResourceId,
};

verus! {

/// A permission that a user may hold on an organization.
#[derive(Clone, Copy, Debug, PartialEq, Eq)]
pub enum JsonOrganizationPermission {
    View,
    Create,
    Edit,
    Delete,
    Manage,
    ViewRole,
    CreateRole,
    EditRole,
    DeleteRole,
}

impl JsonOrganizationPermission {
    /// The name of the permission, in lower case with underscores.
    pub open spec fn name(&self) -> Seq<char> {
        match self {
            JsonOrganizationPermission::View => "view"@,
            JsonOrganizationPermission::Create => "create"@,
            JsonOrganizationPermission::Edit => "edit"@,
            JsonOrganizationPermission::Delete => "delete"@,
            JsonOrganizationPermission::Manage => "manage"@,
            JsonOrganizationPermission::ViewRole => "view_role"@,
            JsonOrganizationPermission::CreateRole => "create_role"@,
            JsonOrganizationPermission::EditRole => "edit_role"@,
            JsonOrganizationPermission::DeleteRole => "delete_role"@,
        }
    }

    /// Writes out the name of the permission.
    pub fn to_string(&self) -> (text: String)
        ensures
            text@ == self.name(),
    {
        let name: &str = match self {
            JsonOrganizationPermission::View => "view",
            JsonOrganizationPermission::Create => "create",
            JsonOrganizationPermission::Edit => "edit",
            JsonOrganizationPermission::Delete => "delete",
            JsonOrganizationPermission::Manage => "manage",
            JsonOrganizationPermission::ViewRole => "view_role",
            JsonOrganizationPermission::CreateRole => "create_role",
            JsonOrganizationPermission::EditRole => "edit_role",
            JsonOrganizationPermission::DeleteRole => "delete_role",
        };
        name.to_owned()
    }
}

/// An organization as it is submitted for creation.
#[derive(Clone, Debug)]
pub struct JsonNewOrganization {
    pub name: String,
    pub slug: Option<String>,
}

/// An organization as it is returned: the identifier in hyphenated form, a
/// name that is not empty, and a slug.
#[derive(Clone, Debug)]
pub struct JsonOrganization {
    pub uuid: String,
    pub name: String,
    pub slug: String,
}

/// A row to be added to the table of organizations.
#[derive(Clone, Debug)]
pub struct InsertOrganization {
    pub uuid: String,
    pub name: String,
    pub slug: String,
}

/// A row of the table of organizations.
#[derive(Clone, Debug)]
pub struct QueryOrganization {
    pub id: i32,
    pub uuid: String,
    pub name: String,
    pub slug: String,
    pub subscription: Option<String>,
    pub license: Option<String>,
}

/// Whether a row is the one that a filter selects.
pub open spec fn row_matches(row: QueryOrganization, filter: FilterView) -> bool {
    match filter {
        FilterView::Uuid(uuid) => row.uuid@ == uuid,
        FilterView::Slug(slug) => row.slug@ == slug,
    }
}

/// Whether the row at position `i` is the first that a filter selects.
pub open spec fn is_first_match(
    rows: Seq<QueryOrganization>,
    filter: FilterView,
    i: int,
) -> bool {
    &&& 0 <= i < rows.len()
    &&& row_matches(rows[i], filter)
    &&& forall|j: int| 0 <= j < i ==> !row_matches(#[trigger] rows[j], filter)
}

/// Whether a result is the first row that a filter selects, or says that
/// there is none.
pub open spec fn is_found(
    result: Result<QueryOrganization, ApiError>,
    rows: Seq<QueryOrganization>,
    filter: FilterView,
) -> bool {
    match result {
        Ok(row) => exists|i: int| #[trigger] is_first_match(rows, filter, i) && row == rows[i],
        Err(e) => e == ApiError::NotFound && forall|i: int|
            0 <= i < rows.len() ==> !row_matches(#[trigger] rows[i], filter),
    }
}

/// What becomes of a row with the given name and slug whose identifier
/// parsed to `parsed`: the identifier is judged first, then the name, then
/// the slug.
pub open spec fn spec_json(
    parsed: Option<Seq<char>>,
    name: Seq<char>,
    slug: Seq<char>,
) -> Result<Seq<char>, ApiError> {
    match parsed {
        None => Err(ApiError::Uuid),
        Some(uuid) => if name.len() == 0 {
            Err(ApiError::Name)
        } else if !is_slug(slug) {
            Err(ApiError::Slug)
        } else {
            Ok(uuid)
        },
    }
}

/// Whether a result is the form in which the organization with the given
/// name and slug is returned, or the error, that was expected.
pub open spec fn is_json(
    result: Result<JsonOrganization, ApiError>,
    expected: Result<Seq<char>, ApiError>,
    name: String,
    slug: String,
) -> bool {
    match result {
        Ok(json) => expected == Ok::<Seq<char>, ApiError>(json.uuid@) && json.name == name
            && json.slug == slug,
        Err(e) => expected == Err::<Seq<char>, ApiError>(e),
    }
}

impl Keyed for QueryOrganization {
    open spec fn key_id(&self) -> i32 {
        self.id
    }

    open spec fn key_uuid(&self) -> Seq<char> {
        self.uuid@
    }

    fn row_id(&self) -> (id: i32) {
        self.id
    }

    fn row_uuid(&self) -> (uuid: &String) {
        &self.uuid
    }
}

impl QueryOrganization {
    /// A copy of the row.
    pub fn duplicate(&self) -> (copy: QueryOrganization)
        ensures
            copy == *self,
    {
        QueryOrganization {
            id: self.id,
            uuid: self.uuid.clone(),
            name: self.name.clone(),
            slug: self.slug.clone(),
            subscription: match &self.subscription {
                Some(text) => Some(text.clone()),
                None => None,
            },
            license: match &self.license {
                Some(text) => Some(text.clone()),
                None => None,
            },
        }
    }

    /// Tells whether the row is the one that a filter selects.
    pub fn matches(&self, filter: &ResourceFilter) -> (hit: bool)
        ensures
            hit == row_matches(*self, filter@),
    {
        match filter {
            ResourceFilter::Uuid(uuid) => self.uuid == *uuid,
            ResourceFilter::Slug(slug) => self.slug == *slug,
        }
    }

    /// The first row that a filter selects.
    pub fn first_matching(rows: &Vec<QueryOrganization>, filter: &ResourceFilter) -> (result:
        Result<QueryOrganization, ApiError>)
        ensures
            is_found(result, rows@, filter@),
    {
        let mut i: usize = 0;
        while i < rows.len()
            invariant
                0 <= i <= rows@.len(),
                forall|j: int| 0 <= j < i ==> !row_matches(#[trigger] rows@[j], filter@),
            decreases rows@.len() - i,
        {
            if rows[i].matches(filter) {
                proof {
                    assert(is_first_match(rows@, filter@, i as int));
                }
                return Ok(rows[i].duplicate());
            }
            i = i + 1;
        }
        Err(ApiError::NotFound)
    }

    /// The organization that a resource identifier names: the first row
    /// with that identifier in hyphenated form where it is a UUID, and the
    /// first row with that slug where it is a slug.
    pub fn from_resource_id(rows: &Vec<QueryOrganization>, organization: &ResourceId) -> (result:
        Result<QueryOrganization, ApiError>)
        ensures
            match organization.filter() {
                Ok(filter) => is_found(result, rows@, filter),
                Err(e) => result == Err::<QueryOrganization, ApiError>(e),
            },
    {
        match organization.to_filter() {
            Ok(filter) => Self::first_matching(rows, &filter),
            Err(e) => Err(e),
        }
    }

    /// The number of the first row that holds the UUID which `uuid` is
    /// parsed to.
    pub fn get_id(rows: &Vec<QueryOrganization>, uuid: &str) -> (result: Result<i32, ApiError>)
        ensures
            is_id_of(result, rows@, uuid_hyphenated(uuid@)),
    {
        lookup::get_id(rows, uuid)
    }

    /// The UUID in hyphenated form of the first row with the number `id`.
    pub fn get_uuid(rows: &Vec<QueryOrganization>, id: i32) -> (result: Result<String, ApiError>)
        ensures
            is_uuid_of(result, rows@, id),
    {
        lookup::get_uuid(rows, id)
    }

    /// Turns the row into the form in which it is returned.
    pub fn into_json(self) -> (result: Result<JsonOrganization, ApiError>)
        ensures
            is_json(
                result,
                spec_json(uuid_hyphenated(self.uuid@), self.name@, self.slug@),
                self.name,
                self.slug,
            ),
    {
        let parsed = canonical_uuid(self.uuid.as_str());
        Self::json_with_uuid(parsed, self.name, self.slug)
    }

    /// The form in which an organization is returned, given what its
    /// identifier parsed to.
    pub fn json_with_uuid(parsed: Option<String>, name: String, slug: String) -> (result: Result<
        JsonOrganization,
        ApiError,
    >)
        ensures
            is_json(result, spec_json(text_of(parsed), name@, slug@), name, slug),
    {
        match parsed {
            None => Err(ApiError::Uuid),
            Some(uuid) => {
                if !check_non_empty(name.as_str()) {
                    Err(ApiError::Name)
                } else if !check_slug(slug.as_str()) {
                    Err(ApiError::Slug)
                } else {
                    Ok(JsonOrganization { uuid, name, slug })
                }
            },
        }
    }
}

} // verus!
