//! Paths of the resources that the service exposes, built from typed
//! segments.

use vstd::prelude::*;
use crate::organization::JsonOrganizationPermission;
use crate::text::concat;

verus! {

/// The path of a resource named `name`, followed by the path of what lies
/// below it where there is anything.
pub open spec fn resource_path(name: Seq<char>, below: Option<Seq<char>>) -> Seq<char> {
    match below {
        Some(rest) => name + "/"@ + rest,
        None => name,
    }
}

/// A segment of a path, together with everything below it.
pub trait ToEndpoint {
    /// The path from this segment on, without a leading slash.
    spec fn endpoint(&self) -> Seq<char>;

    /// Writes out the path from this segment on, without a leading slash.
    fn to_endpoint(&self) -> (path: String)
        ensures
            path@ == self.endpoint(),
    ;
}

/// The path of a resource named `name` with an optional segment below it.
pub open spec fn spec_resource<T: ToEndpoint>(name: Seq<char>, below: Option<T>) -> Seq<char> {
    match below {
        Some(segment) => resource_path(name, Some(segment.endpoint())),
        None => resource_path(name, None),
    }
}

/// Writes out the path of a resource named `name` with an optional segment
/// below it.
pub fn resource<T: ToEndpoint>(name: &str, below: &Option<T>) -> (path: String)
    ensures
        path@ == spec_resource(name@, *below),
{
    match below {
        Some(segment) => {
            let rest = segment.to_endpoint();
            let head = concat(name, "/");
            concat(head.as_str(), rest.as_str())
        },
        None => name.to_owned(),
    }
}

/// The end of a path below a named resource.
#[derive(Clone, Copy, Debug)]
pub struct Resource;

impl ToEndpoint for Resource {
    open spec fn endpoint(&self) -> Seq<char> {
        Seq::empty()
    }

    fn to_endpoint(&self) -> (path: String) {
        String::new()
    }
}

/// A named resource, such as one organization among all, with an optional
/// segment below it.
#[derive(Clone, Debug)]
pub struct PathParam<T>(pub String, pub Option<T>);

impl<T: ToEndpoint> ToEndpoint for PathParam<T> {
    open spec fn endpoint(&self) -> Seq<char> {
        spec_resource(self.0@, self.1)
    }

    fn to_endpoint(&self) -> (path: String) {
        resource(self.0.as_str(), &self.1)
    }
}

/// The root of every path: the version of the interface.
#[derive(Clone, Debug)]
pub enum Endpoint {
    Zero(Option<Zero>),
}

impl ToEndpoint for Endpoint {
    open spec fn endpoint(&self) -> Seq<char> {
        match self {
            Endpoint::Zero(below) => spec_resource("v0"@, *below),
        }
    }

    fn to_endpoint(&self) -> (path: String) {
        match self {
            Endpoint::Zero(below) => resource("v0", below),
        }
    }
}

impl Endpoint {
    /// Writes out the whole path, with its leading slash.
    pub fn to_string(&self) -> (path: String)
        ensures
            path@ == "/"@ + self.endpoint(),
    {
        let rest = self.to_endpoint();
        concat("/", rest.as_str())
    }
}

/// What the first version of the interface exposes.
#[derive(Clone, Debug)]
pub enum Zero {
    Organizations(Option<Organizations>),
}

impl ToEndpoint for Zero {
    open spec fn endpoint(&self) -> Seq<char> {
        match self {
            Zero::Organizations(below) => spec_resource("organizations"@, *below),
        }
    }

    fn to_endpoint(&self) -> (path: String) {
        match self {
            Zero::Organizations(below) => resource("organizations", below),
        }
    }
}

/// One organization among all, and what lies below it.
pub type Organizations = PathParam<Organization>;

/// What an organization exposes.
#[derive(Clone, Debug)]
pub enum Organization {
    Members(Option<PathParam<Resource>>),
    Allowed(Option<JsonOrganizationPermission>),
    Projects(Option<PathParam<Resource>>),
}

impl ToEndpoint for Organization {
    open spec fn endpoint(&self) -> Seq<char> {
        match self {
            Organization::Members(below) => spec_resource("members"@, *below),
            Organization::Allowed(below) => spec_resource("allowed"@, *below),
            Organization::Projects(below) => spec_resource("projects"@, *below),
        }
    }

    fn to_endpoint(&self) -> (path: String) {
        match self {
            Organization::Members(below) => resource("members", below),
            Organization::Allowed(below) => resource("allowed", below),
            Organization::Projects(below) => resource("projects", below),
        }
    }
}

impl ToEndpoint for JsonOrganizationPermission {
    open spec fn endpoint(&self) -> Seq<char> {
        self.name()
    }

    fn to_endpoint(&self) -> (path: String) {
        self.to_string()
    }
}

} // verus!
