//! Projects: who may see them, and how they are created.

use vstd::prelude::*;
use crate::resource_id::{ApiError, ResourceId};

verus! {

/// Who may see a project, as it is chosen on the command line.
#[derive(Clone, Copy, Debug, PartialEq, Eq)]
pub enum Visibility {
    Public,
    Private,
}

/// Who may see a project, as it is submitted.
#[derive(Clone, Copy, Debug, PartialEq, Eq)]
pub enum JsonVisibility {
    Public,
    Private,
}

impl Default for JsonVisibility {
    fn default() -> (visibility: JsonVisibility)
        ensures
            visibility == JsonVisibility::Public,
    {
        JsonVisibility::Public
    }
}

impl JsonVisibility {
    /// Tells whether everybody may see the project.
    pub fn is_public(&self) -> (public: bool)
        ensures
            public == (*self == JsonVisibility::Public),
    {
        match self {
            JsonVisibility::Public => true,
            JsonVisibility::Private => false,
        }
    }
}

/// The submitted form of a visibility.
pub open spec fn spec_json_visibility(visibility: Visibility) -> JsonVisibility {
    match visibility {
        Visibility::Public => JsonVisibility::Public,
        Visibility::Private => JsonVisibility::Private,
    }
}

impl Visibility {
    /// The submitted form of the visibility.
    pub fn into_json(self) -> (json: JsonVisibility)
        ensures
            json == spec_json_visibility(self),
    {
        match self {
            Visibility::Public => JsonVisibility::Public,
            Visibility::Private => JsonVisibility::Private,
        }
    }
}

/// Accepts the visibility of a project that is about to be created: a
/// project is public unless it says otherwise, and only a public project
/// is accepted.
pub fn project_visibility(visibility: Option<JsonVisibility>) -> (result: Result<(), ApiError>)
    ensures
        match visibility {
            None | Some(JsonVisibility::Public) => result == Ok::<(), ApiError>(()),
            Some(JsonVisibility::Private) => result == Err::<(), ApiError>(
                ApiError::CreatePrivateProject,
            ),
        },
{
    let visibility: JsonVisibility = match visibility {
        Some(v) => v,
        None => JsonVisibility::default(),
    };
    if visibility.is_public() {
        Ok(())
    } else {
        Err(ApiError::CreatePrivateProject)
    }
}

/// What the biller answered about the subscription of an organization.
#[derive(Clone, Copy, Debug, PartialEq, Eq)]
pub enum Subscription {
    /// No biller is configured to ask.
    NoBiller,
    /// The plan of the subscription is active.
    Active,
    /// The plan of the subscription is not active.
    Inactive,
}

/// The plan under which an organization may hold projects that are not
/// public: a subscription is judged before a license, and a license is
/// only looked at where there is no subscription.
pub open spec fn spec_check_plan(subscription: Option<Subscription>, license: Option<bool>) -> Result<
    (),
    ApiError,
> {
    match subscription {
        Some(Subscription::Active) => Ok(()),
        Some(Subscription::Inactive) => Err(ApiError::InactivePlanOrganization),
        Some(Subscription::NoBiller) => Err(ApiError::NoBillerOrganization),
        None => match license {
            Some(true) => Ok(()),
            Some(false) => Err(ApiError::License),
            None => Err(ApiError::NoPlanOrganization),
        },
    }
}

/// Judges the plan of an organization, given what the biller answered
/// about its subscription, where it has one, and whether its license is
/// valid, where it has one.
pub fn check_plan(subscription: Option<Subscription>, license: Option<bool>) -> (result: Result<
    (),
    ApiError,
>)
    ensures
        result == spec_check_plan(subscription, license),
{
    match subscription {
        Some(Subscription::Active) => Ok(()),
        Some(Subscription::Inactive) => Err(ApiError::InactivePlanOrganization),
        Some(Subscription::NoBiller) => Err(ApiError::NoBillerOrganization),
        None => match license {
            Some(true) => Ok(()),
            Some(false) => Err(ApiError::License),
            None => Err(ApiError::NoPlanOrganization),
        },
    }
}

/// Accepts the visibility of a project that is about to be created under
/// a plan: a public project is always accepted, and one that is not public
/// where the plan of the organization allows it.
pub fn project_visibility_under_plan(
    visibility: Option<JsonVisibility>,
    subscription: Option<Subscription>,
    license: Option<bool>,
) -> (result: Result<(), ApiError>)
    ensures
        match visibility {
            None | Some(JsonVisibility::Public) => result == Ok::<(), ApiError>(()),
            Some(JsonVisibility::Private) => result == spec_check_plan(subscription, license),
        },
{
    let visibility: JsonVisibility = match visibility {
        Some(v) => v,
        None => JsonVisibility::default(),
    };
    if visibility.is_public() {
        Ok(())
    } else {
        check_plan(subscription, license)
    }
}

/// A project as it is submitted for creation.
#[derive(Clone, Debug)]
pub struct JsonNewProject {
    pub name: String,
    pub slug: Option<String>,
    pub url: Option<String>,
    pub visibility: Option<JsonVisibility>,
}

/// The creation of a project, as asked for on the command line.
#[derive(Clone, Debug)]
pub struct Create {
    pub org: ResourceId,
    pub name: String,
    pub slug: Option<String>,
    pub url: Option<String>,
    pub visibility: Option<Visibility>,
}

impl Create {
    /// The project to submit: everything but the organization, which goes
    /// into the path.
    pub fn into_json(self) -> (json: JsonNewProject)
        ensures
            json.name == self.name,
            json.slug == self.slug,
            json.url == self.url,
            json.visibility == match self.visibility {
                Some(v) => Some(spec_json_visibility(v)),
                None => None,
            },
    {
        JsonNewProject {
            name: self.name,
            slug: self.slug,
            url: self.url,
            visibility: match self.visibility {
                Some(v) => Some(v.into_json()),
                None => None,
            },
        }
    }
}

} // verus!
