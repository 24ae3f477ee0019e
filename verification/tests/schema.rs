use google_testing1::api::{
    AndroidDevice, ClientInfo, ClientInfoDetail, Date, FileReference, ResultStorage, TestMatrix,
};

#[test]
fn schema_defaults_are_empty() {
    let m = TestMatrix::default();
    assert_eq!(m.test_matrix_id, None);
    assert_eq!(m.state, None);
    assert_eq!(m.client_info, None);
    let d = Date::default();
    assert_eq!((d.year, d.month, d.day), (None, None, None));
}

#[test]
fn schema_values_compare_structurally() {
    let a = AndroidDevice {
        android_model_id: Some("walleye".to_string()),
        android_version_id: Some("28".to_string()),
        locale: Some("en_US".to_string()),
        orientation: Some("portrait".to_string()),
    };
    let b = AndroidDevice {
        android_model_id: Some("walleye".to_string()),
        android_version_id: Some("28".to_string()),
        locale: Some("en_US".to_string()),
        orientation: Some("portrait".to_string()),
    };
    assert_eq!(a, b);
    let c = AndroidDevice { locale: Some("de_DE".to_string()), ..b };
    assert_ne!(a, c);
}

#[test]
fn nested_schema_clones_deeply() {
    let info = ClientInfo {
        client_info_details: Some(vec![ClientInfoDetail {
            key: Some("version".to_string()),
            value: Some("4.0.1".to_string()),
        }]),
        name: Some("tool".to_string()),
    };
    let copy = info.clone();
    assert_eq!(info, copy);
}

#[test]
fn request_json_round_trips() {
    // The bytes the pipeline sends are a JSON document; serializing a
    // request value and deserializing those bytes reconstructs an equal
    // value.
    let mut matrix = serde_json::Map::new();
    matrix.insert(
        "projectId".to_string(),
        serde_json::Value::String("p1".to_string()),
    );
    let mut storage = serde_json::Map::new();
    storage.insert(
        "googleCloudStorage".to_string(),
        serde_json::Value::String("gs://bucket".to_string()),
    );
    matrix.insert("resultStorage".to_string(), serde_json::Value::Object(storage));
    matrix.insert(
        "flakyTestAttempts".to_string(),
        serde_json::Value::Number(2.into()),
    );
    let value = serde_json::Value::Object(matrix);
    let body = serde_json::to_string(&value).unwrap();
    let back: serde_json::Value = serde_json::from_str(&body).unwrap();
    assert_eq!(back, value);
}

#[test]
fn typed_schema_fields_carry_over() {
    let storage = ResultStorage {
        google_cloud_storage: None,
        results_url: Some("https://console.example/results".to_string()),
        tool_results_execution: None,
        tool_results_history: None,
    };
    let matrix = TestMatrix {
        project_id: Some("p1".to_string()),
        result_storage: Some(storage),
        flaky_test_attempts: Some(2),
        ..TestMatrix::default()
    };
    assert_eq!(matrix.flaky_test_attempts, Some(2));
    assert_eq!(
        matrix.result_storage.as_ref().unwrap().results_url.as_deref(),
        Some("https://console.example/results")
    );
    let file = FileReference { gcs_path: Some("gs://b/app.apk".to_string()) };
    assert_eq!(file.clone(), file);
}
