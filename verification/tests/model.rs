use bencher::endpoint::ToEndpoint;
use bencher::endpoints::organization_projects::{DirPath, OnePath};
use bencher::endpoints::organizations::{GetAllowedParams, GetOneParams};
use bencher::json::{JsonAllowed, JsonEmpty};
use bencher::organization::{
    InsertOrganization, JsonOrganizationPermission, QueryOrganization,
};
use bencher::perf::{
    QueryPerf, InsertLatency, InsertPerf, JsonLatency, JsonMinMaxAvg, JsonPerfDatumKind, JsonPerfKind,
    JsonThroughput, MetricIds, MetricsKind, MinMaxAvgKind,
};
use bencher::project::{
    check_plan, project_visibility, project_visibility_under_plan, Create, JsonVisibility,
    Subscription, Visibility,
};
use bencher::repo::{CliPush, CliRepo, Push, Repo};
use bencher::resource_id::{check_slug, filter_of, ApiError, ResourceFilter, ResourceId};
use bencher::threshold::{InsertThreshold, QueryThreshold};
use bencher::user::InsertUser;

const UUID: &str = "550e8400-e29b-41d4-a716-446655440000";

fn organization(id: i32, uuid: &str, name: &str, slug: &str) -> QueryOrganization {
    QueryOrganization {
        id,
        uuid: uuid.into(),
        name: name.into(),
        slug: slug.into(),
        subscription: None,
        license: None,
    }
}

fn rows() -> Vec<QueryOrganization> {
    vec![
        organization(1, "00000000-0000-0000-0000-000000000001", "Nowhere", "nowhere"),
        organization(2, UUID, "Muriel Bagge", "muriel-bagge"),
        organization(3, UUID, "Second", "muriel-bagge"),
        organization(4, "not a uuid", "Fourth", "fourth"),
    ]
}

/// Whether a text is a UUID in hyphenated lower case.
fn is_hyphenated_uuid(text: &str) -> bool {
    ResourceId(text.into()).to_filter() == Ok(ResourceFilter::Uuid(text.into()))
}

#[test]
fn uuid_is_written_in_hyphenated_lower_case() {
    let filter = |text: &str| ResourceId(text.into()).to_filter();
    let expected = Ok(ResourceFilter::Uuid(UUID.into()));
    assert_eq!(filter(UUID), expected);
    assert_eq!(filter("550E8400E29B41D4A716446655440000"), expected);
    assert_eq!(filter("urn:uuid:550E8400-E29B-41D4-A716-446655440000"), expected);
    assert_eq!(filter("{550e8400-e29b-41d4-a716-446655440000}"), expected);
    assert!(is_hyphenated_uuid(UUID));
    assert!(!is_hyphenated_uuid("550E8400E29B41D4A716446655440000"));
    assert!(!is_hyphenated_uuid("muriel-bagge"));
}

#[test]
fn random_uuid_is_a_uuid() {
    let first = InsertThreshold::from_json(Ok(1), Ok(2)).unwrap().uuid;
    let second = InsertThreshold::from_json(Ok(1), Ok(2)).unwrap().uuid;
    assert_eq!(first.len(), 36);
    assert!(is_hyphenated_uuid(&first));
    assert!(is_hyphenated_uuid(&second));
    assert_ne!(first, second);
}

#[test]
fn slugs() {
    for slug in ["a", "0", "muriel-bagge", "the-computer", "a-b-c", "x9"] {
        assert!(check_slug(slug), "{}", slug);
    }
    for text in ["", "-", "-a", "a-", "a--b", "Muriel", "a b", "a_b", "caf\u{e9}", "a/b"] {
        assert!(!check_slug(text), "{}", text);
    }
}

#[test]
fn resource_identifiers() {
    assert_eq!(ResourceId(UUID.into()).to_filter(), Ok(ResourceFilter::Uuid(UUID.into())));
    assert_eq!(
        ResourceId("550E8400E29B41D4A716446655440000".into()).to_filter(),
        Ok(ResourceFilter::Uuid(UUID.into()))
    );
    assert_eq!(
        ResourceId("muriel-bagge".into()).to_filter(),
        Ok(ResourceFilter::Slug("muriel-bagge".into()))
    );
    assert_eq!(ResourceId("Muriel Bagge".into()).to_filter(), Err(ApiError::ResourceId));
    assert_eq!(ResourceId("".into()).to_filter(), Err(ApiError::ResourceId));
    assert_eq!(
        filter_of(&"anything".to_string(), Some(UUID.to_string())),
        Ok(ResourceFilter::Uuid(UUID.into()))
    );
    assert_eq!(filter_of(&"Not A Slug".to_string(), None), Err(ApiError::ResourceId));
}

#[test]
fn organization_from_resource_id() {
    let rows = rows();
    let by_slug = QueryOrganization::from_resource_id(&rows, &ResourceId("muriel-bagge".into()));
    assert_eq!(by_slug.unwrap().id, 2);
    let by_uuid = QueryOrganization::from_resource_id(
        &rows,
        &ResourceId("550E8400-E29B-41D4-A716-446655440000".into()),
    );
    assert_eq!(by_uuid.unwrap().id, 2);
    let first = QueryOrganization::from_resource_id(&rows, &ResourceId("nowhere".into())).unwrap();
    assert_eq!((first.id, first.name.as_str()), (1, "Nowhere"));
    assert_eq!(
        QueryOrganization::from_resource_id(&rows, &ResourceId("katz".into())).err(),
        Some(ApiError::NotFound)
    );
    assert_eq!(
        QueryOrganization::from_resource_id(&rows, &ResourceId("Not A Slug".into())).err(),
        Some(ApiError::ResourceId)
    );
    assert_eq!(
        QueryOrganization::from_resource_id(&Vec::new(), &ResourceId(UUID.into())).err(),
        Some(ApiError::NotFound)
    );
    // A slug column is not searched for a UUID.
    let odd = vec![organization(1, "x", "Odd", UUID)];
    assert_eq!(
        QueryOrganization::from_resource_id(&odd, &ResourceId(UUID.into())).err(),
        Some(ApiError::NotFound)
    );
}

#[test]
fn organization_uuid_by_row() {
    let rows = rows();
    assert_eq!(QueryOrganization::get_uuid(&rows, 2), Ok(UUID.to_string()));
    assert_eq!(QueryOrganization::get_uuid(&rows, 4), Err(ApiError::Uuid));
    assert_eq!(QueryOrganization::get_uuid(&rows, 5), Err(ApiError::NotFound));
}

#[test]
fn organization_id_by_uuid() {
    let rows = rows();
    assert_eq!(QueryOrganization::get_id(&rows, UUID), Ok(2));
    assert_eq!(QueryOrganization::get_id(&rows, "550E8400E29B41D4A716446655440000"), Ok(2));
    assert_eq!(
        QueryOrganization::get_id(&rows, "00000000-0000-0000-0000-000000000001"),
        Ok(1)
    );
    assert_eq!(
        QueryOrganization::get_id(&rows, "00000000-0000-0000-0000-000000000002"),
        Err(ApiError::NotFound)
    );
    assert_eq!(QueryOrganization::get_id(&rows, "not a uuid"), Err(ApiError::Uuid));
}

#[test]
fn results_and_thresholds_by_identifier() {
    let perf = |id: i32, uuid: &str| QueryPerf {
        id,
        uuid: uuid.into(),
        report_id: 1,
        iteration: 0,
        benchmark_id: 1,
        latency_id: None,
        throughput_id: None,
        compute_id: None,
        memory_id: None,
        storage_id: None,
    };
    let results = vec![perf(7, "00000000-0000-0000-0000-000000000007"), perf(8, UUID), perf(9, "?")];
    assert_eq!(QueryPerf::get_id(&results, UUID), Ok(8));
    assert_eq!(QueryPerf::get_id(&results, "?"), Err(ApiError::Uuid));
    assert_eq!(QueryPerf::get_uuid(&results, 8), Ok(UUID.to_string()));
    assert_eq!(QueryPerf::get_uuid(&results, 9), Err(ApiError::Uuid));
    assert_eq!(QueryPerf::get_uuid(&results, 10), Err(ApiError::NotFound));
    let threshold = |id: i32, uuid: &str| QueryThreshold {
        id,
        uuid: uuid.into(),
        branch_id: 1,
        testbed_id: 1,
        z_score_id: None,
        t_test_id: None,
    };
    let thresholds = vec![threshold(1, "550E8400E29B41D4A716446655440000"), threshold(2, UUID)];
    // The table is searched for the hyphenated form.
    assert_eq!(QueryThreshold::get_id(&thresholds, UUID), Ok(2));
    assert_eq!(QueryThreshold::get_uuid(&thresholds, 1), Ok(UUID.to_string()));
    assert_eq!(QueryThreshold::get_uuid(&thresholds, 3), Err(ApiError::NotFound));
    assert_eq!(QueryThreshold::get_id(&Vec::new(), UUID), Err(ApiError::NotFound));
}

#[test]
fn plans() {
    assert_eq!(check_plan(Some(Subscription::Active), None), Ok(()));
    assert_eq!(check_plan(Some(Subscription::Active), Some(false)), Ok(()));
    assert_eq!(
        check_plan(Some(Subscription::Inactive), Some(true)),
        Err(ApiError::InactivePlanOrganization)
    );
    assert_eq!(check_plan(Some(Subscription::NoBiller), None), Err(ApiError::NoBillerOrganization));
    assert_eq!(check_plan(None, Some(true)), Ok(()));
    assert_eq!(check_plan(None, Some(false)), Err(ApiError::License));
    assert_eq!(check_plan(None, None), Err(ApiError::NoPlanOrganization));
    let private = Some(JsonVisibility::Private);
    assert_eq!(project_visibility_under_plan(None, None, None), Ok(()));
    assert_eq!(project_visibility_under_plan(Some(JsonVisibility::Public), None, None), Ok(()));
    assert_eq!(
        project_visibility_under_plan(private, None, None),
        Err(ApiError::NoPlanOrganization)
    );
    assert_eq!(project_visibility_under_plan(private, Some(Subscription::Active), None), Ok(()));
}

#[test]
fn organization_into_json() {
    let json = organization(1, "550E8400E29B41D4A716446655440000", "Muriel", "muriel")
        .into_json()
        .unwrap();
    assert_eq!((json.uuid.as_str(), json.name.as_str(), json.slug.as_str()), (UUID, "Muriel", "muriel"));
    assert_eq!(organization(1, "nope", "Muriel", "muriel").into_json().err(), Some(ApiError::Uuid));
    assert_eq!(organization(1, UUID, "", "muriel").into_json().err(), Some(ApiError::Name));
    assert_eq!(organization(1, UUID, "Muriel", "Muriel").into_json().err(), Some(ApiError::Slug));
    assert_eq!(organization(1, "nope", "", "").into_json().err(), Some(ApiError::Uuid));
    assert_eq!(
        QueryOrganization::json_with_uuid(None, "a".into(), "a".into()).err(),
        Some(ApiError::Uuid)
    );
}

#[test]
fn organization_of_a_new_user() {
    let user = InsertUser {
        uuid: UUID.into(),
        name: "Eustace Bagge".into(),
        slug: "eustace-bagge".into(),
        email: "eustace@nowhere.com".into(),
    };
    let organization = InsertOrganization::from_user(&user);
    assert_eq!(organization.name, "Eustace Bagge");
    assert_eq!(organization.slug, "eustace-bagge");
    assert!(is_hyphenated_uuid(&organization.uuid));
    assert_ne!(organization.uuid, user.uuid);
}

#[test]
fn permission_names() {
    let names = [
        (JsonOrganizationPermission::View, "view"),
        (JsonOrganizationPermission::Create, "create"),
        (JsonOrganizationPermission::Edit, "edit"),
        (JsonOrganizationPermission::Delete, "delete"),
        (JsonOrganizationPermission::Manage, "manage"),
        (JsonOrganizationPermission::ViewRole, "view_role"),
        (JsonOrganizationPermission::CreateRole, "create_role"),
        (JsonOrganizationPermission::EditRole, "edit_role"),
        (JsonOrganizationPermission::DeleteRole, "delete_role"),
    ];
    for (permission, name) in names {
        assert_eq!(permission.to_string(), name);
        assert_eq!(permission.to_endpoint(), name);
    }
}

#[test]
fn paths_of_requests() {
    let organization = ResourceId("muriel-bagge".into());
    let project = ResourceId("the-computer".into());
    assert_eq!(
        GetOneParams { organization: organization.clone() }.endpoint().to_string(),
        "/v0/organizations/muriel-bagge"
    );
    assert_eq!(
        GetAllowedParams {
            organization: organization.clone(),
            permission: JsonOrganizationPermission::Manage,
        }
        .endpoint()
        .to_string(),
        "/v0/organizations/muriel-bagge/allowed/manage"
    );
    assert_eq!(
        DirPath { organization: organization.clone() }.endpoint().to_string(),
        "/v0/organizations/muriel-bagge/projects"
    );
    assert_eq!(
        OnePath { organization, project }.endpoint().to_string(),
        "/v0/organizations/muriel-bagge/projects/the-computer"
    );
}

#[test]
fn only_public_projects_are_created() {
    assert_eq!(project_visibility(None), Ok(()));
    assert_eq!(project_visibility(Some(JsonVisibility::Public)), Ok(()));
    assert_eq!(
        project_visibility(Some(JsonVisibility::Private)),
        Err(ApiError::CreatePrivateProject)
    );
    assert_eq!(JsonVisibility::default(), JsonVisibility::Public);
    assert_eq!(Visibility::Private.into_json(), JsonVisibility::Private);
    assert_eq!(Visibility::Public.into_json(), JsonVisibility::Public);
}

#[test]
fn project_to_submit() {
    let create = Create {
        org: ResourceId("muriel-bagge".into()),
        name: "The Computer".into(),
        slug: Some("the-computer".into()),
        url: None,
        visibility: Some(Visibility::Private),
    };
    let json = create.into_json();
    assert_eq!(json.name, "The Computer");
    assert_eq!(json.slug.as_deref(), Some("the-computer"));
    assert_eq!(json.url, None);
    assert_eq!(json.visibility, Some(JsonVisibility::Private));
}

#[test]
fn tables_of_metrics() {
    assert_eq!(MetricsKind::from_kind(JsonPerfKind::Latency), MetricsKind::Latency);
    assert_eq!(MetricsKind::from_kind(JsonPerfKind::Throughput), MetricsKind::Throughput);
    assert_eq!(
        MetricsKind::from_kind(JsonPerfKind::Compute),
        MetricsKind::MinMaxAvg(MinMaxAvgKind::Compute)
    );
    assert_eq!(
        MetricsKind::from_kind(JsonPerfKind::Memory),
        MetricsKind::MinMaxAvg(MinMaxAvgKind::Memory)
    );
    assert_eq!(
        MetricsKind::from_kind(JsonPerfKind::Storage),
        MetricsKind::MinMaxAvg(MinMaxAvgKind::Storage)
    );
    let latency = JsonLatency { lower_variance: 1, upper_variance: 2, duration: 3 };
    let throughput = JsonThroughput { lower_variance: 0, upper_variance: 0, events: 5, unit_time: 1 };
    let usage = JsonMinMaxAvg { min: 1, max: 3, avg: 2 };
    assert_eq!(JsonPerfDatumKind::Latency(latency).kind(), JsonPerfKind::Latency);
    assert_eq!(JsonPerfDatumKind::Throughput(throughput).kind(), JsonPerfKind::Throughput);
    assert_eq!(JsonPerfDatumKind::Compute(usage).kind(), JsonPerfKind::Compute);
    assert_eq!(JsonPerfDatumKind::Memory(usage).kind(), JsonPerfKind::Memory);
    assert_eq!(JsonPerfDatumKind::Storage(usage).kind(), JsonPerfKind::Storage);
}

#[test]
fn rows_of_results() {
    let latency = InsertLatency::from(JsonLatency {
        lower_variance: 5,
        upper_variance: u64::MAX,
        duration: 1_500_000,
    });
    assert_eq!(latency.lower_variance, 5);
    assert_eq!(latency.upper_variance, -1);
    assert_eq!(latency.duration, 1_500_000);
    assert!(is_hyphenated_uuid(&latency.uuid));
    let ids = MetricIds {
        latency: Some(7),
        throughput: None,
        compute: Some(8),
        memory: None,
        storage: Some(9),
    };
    let perf = InsertPerf::from_json(1, 2, 3, ids);
    assert_eq!((perf.report_id, perf.iteration, perf.benchmark_id), (1, 2, 3));
    assert_eq!(
        (perf.latency_id, perf.throughput_id, perf.compute_id, perf.memory_id, perf.storage_id),
        (Some(7), None, Some(8), None, Some(9))
    );
    assert!(is_hyphenated_uuid(&perf.uuid));
}

#[test]
fn rows_of_thresholds() {
    let row = InsertThreshold::from_json(Ok(4), Ok(5)).unwrap();
    assert_eq!((row.branch_id, row.testbed_id), (4, 5));
    assert!(is_hyphenated_uuid(&row.uuid));
    assert_eq!(
        InsertThreshold::from_json(Err(ApiError::NotFound), Err(ApiError::Uuid)).err(),
        Some(ApiError::NotFound)
    );
    assert_eq!(InsertThreshold::from_json(Ok(1), Err(ApiError::Uuid)).err(), Some(ApiError::Uuid));
    let query = |uuid: &str| QueryThreshold {
        id: 1,
        uuid: uuid.into(),
        branch_id: 4,
        testbed_id: 5,
        z_score_id: Some(1),
        t_test_id: None,
    };
    let json = query("550E8400E29B41D4A716446655440000")
        .to_json(Ok("branch".into()), Ok("testbed".into()))
        .unwrap();
    assert_eq!(json.uuid, UUID);
    assert_eq!((json.branch.as_str(), json.testbed.as_str()), ("branch", "testbed"));
    assert_eq!((json.z_score, json.t_test), (None, None));
    assert_eq!(
        query("nope").to_json(Err(ApiError::NotFound), Ok("t".into())).err(),
        Some(ApiError::Uuid)
    );
    assert_eq!(
        query(UUID).to_json(Err(ApiError::NotFound), Err(ApiError::Slug)).err(),
        Some(ApiError::NotFound)
    );
    assert_eq!(
        query(UUID).to_json(Ok("b".into()), Err(ApiError::Slug)).err(),
        Some(ApiError::Slug)
    );
}

#[test]
fn repository_settings() {
    let cli = |push: bool| CliRepo {
        url: "git@nowhere.com:muriel/reports.git".into(),
        key: Some("/home/muriel/.ssh/id".into()),
        branch: None,
        push: CliPush {
            push,
            name: Some("Muriel".into()),
            email: None,
            message: Some("more reports".into()),
        },
    };
    let quiet = Repo::from(cli(false));
    assert!(quiet.push.is_none());
    assert_eq!(quiet.url, "git@nowhere.com:muriel/reports.git");
    assert_eq!(quiet.key.as_deref(), Some("/home/muriel/.ssh/id"));
    assert_eq!(quiet.branch, None);
    let push = Repo::from(cli(true)).push.unwrap();
    assert_eq!(push.name.as_deref(), Some("Muriel"));
    assert_eq!(push.email, None);
    assert_eq!(push.message(), "more reports");
    assert_eq!(push.author(), None);
    let signed = Push { name: Some("Muriel".into()), email: Some("m@nowhere.com".into()), message: None };
    assert_eq!(signed.message(), "bencher");
    assert_eq!(signed.author(), Some((&"Muriel".to_string(), &"m@nowhere.com".to_string())));
}

#[test]
fn branch_of_a_push() {
    assert_eq!(Push::branch(Some("main"), Some("trunk")), "main");
    assert_eq!(Push::branch(None, Some("trunk")), "trunk");
    assert_eq!(Push::branch(None, None), "master");
    assert_eq!(Push::refspec("main"), "refs/heads/main:refs/heads/main");
    assert_eq!(Push::refspec(""), "refs/heads/:refs/heads/");
}

#[test]
fn small_bodies() {
    assert_eq!(JsonEmpty::default(), JsonEmpty {});
    assert!(JsonAllowed { allowed: true }.allowed);
}
