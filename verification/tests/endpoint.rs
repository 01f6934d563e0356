use bencher::endpoint::{Endpoint, Organization, PathParam, Resource, ToEndpoint, Zero};
use bencher::organization::JsonOrganizationPermission;

#[test]
fn test_endpoint() {
    assert_eq!("/v0", Endpoint::Zero(None).to_string());
    assert_eq!(
        "/v0/organizations",
        Endpoint::Zero(Some(Zero::Organizations(None))).to_string()
    );
    assert_eq!(
        "/v0/organizations/muriel-bagge",
        Endpoint::Zero(Some(Zero::Organizations(Some(PathParam(
            "muriel-bagge".into(),
            None
        )))))
        .to_string()
    );
    assert_eq!(
        "/v0/organizations/muriel-bagge/projects",
        Endpoint::Zero(Some(Zero::Organizations(Some(PathParam(
            "muriel-bagge".into(),
            Some(Organization::Projects(None))
        )))))
        .to_string()
    );
    assert_eq!(
        "/v0/organizations/muriel-bagge/projects/the-computer",
        Endpoint::Zero(Some(Zero::Organizations(Some(PathParam(
            "muriel-bagge".into(),
            Some(Organization::Projects(Some(PathParam(
                "the-computer".into(),
                None
            ))))
        )))))
        .to_string()
    );
    assert_eq!(
        "/v0/organizations/muriel-bagge/projects/the-computer/",
        Endpoint::Zero(Some(Zero::Organizations(Some(PathParam(
            "muriel-bagge".into(),
            Some(Organization::Projects(Some(PathParam(
                "the-computer".into(),
                Some(Resource)
            ))))
        )))))
        .to_string()
    );
}

#[test]
fn endpoint_without_leading_slash() {
    assert_eq!("v0/organizations", Endpoint::Zero(Some(Zero::Organizations(None))).to_endpoint());
    assert_eq!("", Resource.to_endpoint());
}

#[test]
fn endpoint_of_a_permission() {
    let path = Endpoint::Zero(Some(Zero::Organizations(Some(PathParam(
        "muriel-bagge".into(),
        Some(Organization::Allowed(Some(JsonOrganizationPermission::ViewRole))),
    )))));
    assert_eq!("/v0/organizations/muriel-bagge/allowed/view_role", path.to_string());
    let members = Endpoint::Zero(Some(Zero::Organizations(Some(PathParam(
        "muriel-bagge".into(),
        Some(Organization::Members(Some(PathParam("eustace".into(), None)))),
    )))));
    assert_eq!("/v0/organizations/muriel-bagge/members/eustace", members.to_string());
}
