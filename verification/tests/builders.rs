use google_testing1::api::{
    ApplicationDetailServiceMethods, FileReference, ProjectMethods, Scope,
    TestEnvironmentCatalogMethods, TestMatrix,
};
use google_testing1::client::{prepare, ClientConfig, Descriptor, Method, Prepared};

fn ready(prepared: Prepared) -> Descriptor {
    match prepared {
        Prepared::Ready(d) => d,
        Prepared::Clash(name) => panic!("unexpected clash on {}", name),
        Prepared::InvalidBaseUrl => panic!("unexpected invalid base url"),
    }
}

#[test]
fn create_call_builds_full_url() {
    let call = ProjectMethods::new()
        .test_matrices_create(TestMatrix::default(), "p1")
        .request_id("rid-7");
    let spec = call.call_spec("{\"clientInfo\":null}".to_string());
    let cfg = ClientConfig::new();
    let (prepared, _) = prepare(spec, &cfg);
    let d = ready(prepared);
    assert_eq!(
        d.url,
        "https://testing.googleapis.com/v1/projects/p1/testMatrices?requestId=rid-7&alt=json"
    );
    assert_eq!(d.call_id, "testing.projects.testMatrices.create");
    assert_eq!(d.method, Method::Post);
    assert_eq!(d.body.as_deref(), Some("{\"clientInfo\":null}"));
    assert_eq!(d.user_agent, "google-api-rust-client/4.0.1");
}

#[test]
fn cancel_call_builds_cancel_url() {
    let call = ProjectMethods::new().test_matrices_cancel("p2", "matrix-9");
    let (prepared, _) = prepare(call.call_spec(), &ClientConfig::new());
    let d = ready(prepared);
    assert_eq!(
        d.url,
        "https://testing.googleapis.com/v1/projects/p2/testMatrices/matrix-9:cancel?alt=json"
    );
    assert_eq!(d.method, Method::Post);
    assert_eq!(d.body, None);
}

#[test]
fn get_call_builds_get_url() {
    let call = ProjectMethods::new().test_matrices_get("p3", "m-1");
    let (prepared, _) = prepare(call.call_spec(), &ClientConfig::new());
    let d = ready(prepared);
    assert_eq!(
        d.url,
        "https://testing.googleapis.com/v1/projects/p3/testMatrices/m-1?alt=json"
    );
    assert_eq!(d.method, Method::Get);
}

#[test]
fn catalog_call_keeps_project_id_in_query() {
    let call = TestEnvironmentCatalogMethods::new()
        .get("ANDROID")
        .project_id("p4");
    let (prepared, _) = prepare(call.call_spec(), &ClientConfig::new());
    let d = ready(prepared);
    assert_eq!(
        d.url,
        "https://testing.googleapis.com/v1/testEnvironmentCatalog/ANDROID?projectId=p4&alt=json"
    );
    assert_eq!(d.method, Method::Get);
}

#[test]
fn apk_details_call_posts_to_fixed_path() {
    let request = FileReference {
        gcs_path: Some("gs://bucket/app.apk".to_string()),
    };
    let call = ApplicationDetailServiceMethods::new().get_apk_details(request);
    let spec = call.call_spec("{\"gcsPath\":\"gs://bucket/app.apk\"}".to_string());
    let (prepared, _) = prepare(spec, &ClientConfig::new());
    let d = ready(prepared);
    assert_eq!(
        d.url,
        "https://testing.googleapis.com/v1/applicationDetailService/getApkDetails?alt=json"
    );
    assert_eq!(d.body.as_deref(), Some("{\"gcsPath\":\"gs://bucket/app.apk\"}"));
}

#[test]
fn additional_params_are_encoded_into_the_query() {
    let call = ProjectMethods::new()
        .test_matrices_get("p1", "m1")
        .param("fields", "test executions")
        .param("quotaUser", "alice");
    let (prepared, _) = prepare(call.call_spec(), &ClientConfig::new());
    let d = ready(prepared);
    assert_eq!(
        d.url,
        "https://testing.googleapis.com/v1/projects/p1/testMatrices/m1?fields=test+executions&quotaUser=alice&alt=json"
    );
}

#[test]
fn param_replaces_earlier_value_of_same_name() {
    let call = ProjectMethods::new()
        .test_matrices_get("p1", "m1")
        .param("fields", "a")
        .param("fields", "b");
    assert_eq!(call.additional_params.len(), 1);
    assert_eq!(call.additional_params[0].0, "fields");
    assert_eq!(call.additional_params[0].1, "b");
}

#[test]
fn empty_scope_set_falls_back_to_default_scope() {
    let call = ProjectMethods::new().test_matrices_get("p1", "m1");
    let (prepared, _) = prepare(call.call_spec(), &ClientConfig::new());
    let d = ready(prepared);
    assert_eq!(d.scopes, vec![
        "https://www.googleapis.com/auth/cloud-platform".to_string()
    ]);
}

#[test]
fn add_scope_deduplicates() {
    let call = ProjectMethods::new()
        .test_matrices_get("p1", "m1")
        .add_scope(Scope::CloudPlatformReadOnly.as_ref())
        .add_scope(Scope::CloudPlatformReadOnly.as_ref());
    assert_eq!(call.scopes.len(), 1);
    let (prepared, _) = prepare(call.call_spec(), &ClientConfig::new());
    let d = ready(prepared);
    assert_eq!(d.scopes, vec![
        "https://www.googleapis.com/auth/cloud-platform.read-only".to_string()
    ]);
}

#[test]
fn scope_urls_are_stable() {
    assert_eq!(
        Scope::CloudPlatform.as_ref(),
        "https://www.googleapis.com/auth/cloud-platform"
    );
    assert_eq!(
        Scope::CloudPlatformReadOnly.as_ref(),
        "https://www.googleapis.com/auth/cloud-platform.read-only"
    );
    assert_eq!(Scope::default(), Scope::CloudPlatform);
}

#[test]
fn config_setters_return_previous_values() {
    let mut cfg = ClientConfig::new();
    let old = cfg.user_agent("my-agent/1.0".to_string());
    assert_eq!(old, "google-api-rust-client/4.0.1");
    let old_base = cfg.base_url("https://example.com/".to_string());
    assert_eq!(old_base, "https://testing.googleapis.com/");
    let old_root = cfg.root_url("https://example.com/".to_string());
    assert_eq!(old_root, "https://testing.googleapis.com/");
    assert_eq!(cfg.user_agent, "my-agent/1.0");
}

#[test]
fn custom_base_url_is_used() {
    let mut cfg = ClientConfig::new();
    cfg.base_url("https://localhost:8080/".to_string());
    let call = ProjectMethods::new().test_matrices_get("p1", "m1");
    let (prepared, _) = prepare(call.call_spec(), &cfg);
    let d = ready(prepared);
    assert_eq!(
        d.url,
        "https://localhost:8080/v1/projects/p1/testMatrices/m1?alt=json"
    );
}

#[test]
fn unparseable_base_url_is_rejected() {
    let mut cfg = ClientConfig::new();
    cfg.base_url("not a url at all".to_string());
    let call = ProjectMethods::new().test_matrices_get("p1", "m1");
    let (prepared, _) = prepare(call.call_spec(), &cfg);
    assert!(matches!(prepared, Prepared::InvalidBaseUrl));
}
