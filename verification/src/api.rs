//! Data schemas of the Cloud Testing API.

use vstd::prelude::*;
use vstd::string::StringExecFns;

use crate::client::{has_param, insert_scope, spec_has_scope, upsert_param, CallSpec, Method};

verus! {

/// Identifies an OAuth2 authorization scope. A scope is needed when
/// requesting an authorization token.
#[derive(Clone, Copy, Debug, PartialEq, Eq, Hash, Structural)]
pub enum Scope {
    /// See, edit, configure, and delete your Google Cloud data and see the
    /// email address for your Google Account.
    CloudPlatform,
    /// View your data across Google Cloud services and see the email
    /// address of your Google Account.
    CloudPlatformReadOnly,
}

impl Scope {
    /// The URL that identifies this scope on the wire.
    pub fn as_ref(&self) -> (r: &'static str)
        ensures
            *self is CloudPlatform ==> r@ == "https://www.googleapis.com/auth/cloud-platform"@,
            *self is CloudPlatformReadOnly ==> r@
                == "https://www.googleapis.com/auth/cloud-platform.read-only"@,
    {
        match *self {
            Scope::CloudPlatform => "https://www.googleapis.com/auth/cloud-platform",
            Scope::CloudPlatformReadOnly => "https://www.googleapis.com/auth/cloud-platform.read-only",
        }
    }
}

impl Default for Scope {
    fn default() -> (r: Scope)
        ensures
            r is CloudPlatform,
    {
        Scope::CloudPlatform
    }
}

/// Identifies an account and how to log into it.
#[derive(Default, Clone, Debug, PartialEq)]
pub struct Account {
    pub google_auto: Option<GoogleAuto>,
}

/// A single Android device.
#[derive(Default, Clone, Debug, PartialEq)]
pub struct AndroidDevice {
    pub android_model_id: Option<String>,
    pub android_version_id: Option<String>,
    pub locale: Option<String>,
    pub orientation: Option<String>,
}

/// A list of Android device configurations in which the test is to be
/// executed.
#[derive(Default, Clone, Debug, PartialEq)]
pub struct AndroidDeviceList {
    pub android_devices: Option<Vec<AndroidDevice>>,
}

/// A test of an Android application that can control an Android component
/// independently of its normal lifecycle.
#[derive(Default, Clone, Debug, PartialEq)]
pub struct AndroidInstrumentationTest {
    pub app_apk: Option<FileReference>,
    pub app_bundle: Option<AppBundle>,
    pub app_package_id: Option<String>,
    pub orchestrator_option: Option<String>,
    pub sharding_option: Option<ShardingOption>,
    pub test_apk: Option<FileReference>,
    pub test_package_id: Option<String>,
    pub test_runner_class: Option<String>,
    pub test_targets: Option<Vec<String>>,
}

/// A set of Android device configuration permutations is defined by the the
/// cross-product of the given axes.
#[derive(Default, Clone, Debug, PartialEq)]
pub struct AndroidMatrix {
    pub android_model_ids: Option<Vec<String>>,
    pub android_version_ids: Option<Vec<String>>,
    pub locales: Option<Vec<String>>,
    pub orientations: Option<Vec<String>>,
}

/// A description of an Android device tests may be run on.
#[derive(Default, Clone, Debug, PartialEq)]
pub struct AndroidModel {
    pub brand: Option<String>,
    pub codename: Option<String>,
    pub form: Option<String>,
    pub form_factor: Option<String>,
    pub id: Option<String>,
    pub low_fps_video_recording: Option<bool>,
    pub manufacturer: Option<String>,
    pub name: Option<String>,
    pub screen_density: Option<i32>,
    pub screen_x: Option<i32>,
    pub screen_y: Option<i32>,
    pub supported_abis: Option<Vec<String>>,
    pub supported_version_ids: Option<Vec<String>>,
    pub tags: Option<Vec<String>>,
    pub thumbnail_url: Option<String>,
}

/// A test of an android application that explores the application on a
/// virtual or physical Android Device, finding culprits and crashes as it
/// goes.
#[derive(Default, Clone, Debug, PartialEq)]
pub struct AndroidRoboTest {
    pub app_apk: Option<FileReference>,
    pub app_bundle: Option<AppBundle>,
    pub app_initial_activity: Option<String>,
    pub app_package_id: Option<String>,
    pub robo_directives: Option<Vec<RoboDirective>>,
    pub robo_mode: Option<String>,
    pub robo_script: Option<FileReference>,
    pub starting_intents: Option<Vec<RoboStartingIntent>>,
}

/// Android configuration that can be selected at the time a test is run.
#[derive(Default, Clone, Debug, PartialEq)]
pub struct AndroidRuntimeConfiguration {
    pub locales: Option<Vec<Locale>>,
    pub orientations: Option<Vec<Orientation>>,
}

/// A test of an Android Application with a Test Loop.
#[derive(Default, Clone, Debug, PartialEq)]
pub struct AndroidTestLoop {
    pub app_apk: Option<FileReference>,
    pub app_bundle: Option<AppBundle>,
    pub app_package_id: Option<String>,
    pub scenario_labels: Option<Vec<String>>,
    pub scenarios: Option<Vec<i32>>,
}

/// An Android package file to install.
#[derive(Default, Clone, Debug, PartialEq)]
pub struct Apk {
    pub location: Option<FileReference>,
    pub package_name: Option<String>,
}

/// Android application details based on application manifest and apk archive
/// contents.
#[derive(Default, Clone, Debug, PartialEq)]
pub struct ApkDetail {
    pub apk_manifest: Option<ApkManifest>,
}

/// An Android app manifest.
#[derive(Default, Clone, Debug, PartialEq)]
pub struct ApkManifest {
    pub application_label: Option<String>,
    pub intent_filters: Option<Vec<IntentFilter>>,
    pub max_sdk_version: Option<i32>,
    pub min_sdk_version: Option<i32>,
    pub package_name: Option<String>,
    pub target_sdk_version: Option<i32>,
    pub uses_permission: Option<Vec<String>>,
}

/// An Android App Bundle file format, containing a BundleConfig.pb file, a
/// base module directory, zero or more dynamic feature module directories.
#[derive(Default, Clone, Debug, PartialEq)]
pub struct AppBundle {
    pub bundle_location: Option<FileReference>,
}

/// Response containing the current state of the specified test matrix.
#[derive(Default, Clone, Debug, PartialEq)]
pub struct CancelTestMatrixResponse {
    pub test_state: Option<String>,
}

/// Information about the client which invoked the test.
#[derive(Default, Clone, Debug, PartialEq)]
pub struct ClientInfo {
    pub client_info_details: Option<Vec<ClientInfoDetail>>,
    pub name: Option<String>,
}

/// Key-value pair of detailed information about the client which invoked the
/// test.
#[derive(Default, Clone, Debug, PartialEq)]
pub struct ClientInfoDetail {
    pub key: Option<String>,
    pub value: Option<String>,
}

/// Represents a whole or partial calendar date, such as a birthday.
#[derive(Default, Clone, Debug, PartialEq)]
pub struct Date {
    pub day: Option<i32>,
    pub month: Option<i32>,
    pub year: Option<i32>,
}

/// A single device file description.
#[derive(Default, Clone, Debug, PartialEq)]
pub struct DeviceFile {
    pub obb_file: Option<ObbFile>,
    pub regular_file: Option<RegularFile>,
}

/// A single device IP block
#[derive(Default, Clone, Debug, PartialEq)]
pub struct DeviceIpBlock {
    pub added_date: Option<Date>,
    pub block: Option<String>,
    pub form: Option<String>,
}

/// List of IP blocks used by the Firebase Test Lab
#[derive(Default, Clone, Debug, PartialEq)]
pub struct DeviceIpBlockCatalog {
    pub ip_blocks: Option<Vec<DeviceIpBlock>>,
}

/// The environment in which the test is run.
#[derive(Default, Clone, Debug, PartialEq)]
pub struct Environment {
    pub android_device: Option<AndroidDevice>,
    pub ios_device: Option<IosDevice>,
}

/// The matrix of environments in which the test is to be executed.
#[derive(Default, Clone, Debug, PartialEq)]
pub struct EnvironmentMatrix {
    pub android_device_list: Option<AndroidDeviceList>,
    pub android_matrix: Option<AndroidMatrix>,
    pub ios_device_list: Option<IosDeviceList>,
}

/// A key-value pair passed as an environment variable to the test.
#[derive(Default, Clone, Debug, PartialEq)]
pub struct EnvironmentVariable {
    pub key: Option<String>,
    pub value: Option<String>,
}

/// A reference to a file, used for user inputs.
#[derive(Default, Clone, Debug, PartialEq)]
pub struct FileReference {
    pub gcs_path: Option<String>,
}

/// Response containing the details of the specified Android application APK.
#[derive(Default, Clone, Debug, PartialEq)]
pub struct GetApkDetailsResponse {
    pub apk_detail: Option<ApkDetail>,
}

/// Enables automatic Google account login.
#[derive(Default, Clone, Debug, PartialEq)]
pub struct GoogleAuto {
    _never_set: Option<bool>,
}

/// A storage location within Google cloud storage (GCS).
#[derive(Default, Clone, Debug, PartialEq)]
pub struct GoogleCloudStorage {
    pub gcs_path: Option<String>,
}

/// The section of an tag.
#[derive(Default, Clone, Debug, PartialEq)]
pub struct IntentFilter {
    pub action_names: Option<Vec<String>>,
    pub category_names: Option<Vec<String>>,
    pub mime_type: Option<String>,
}

/// A single iOS device.
#[derive(Default, Clone, Debug, PartialEq)]
pub struct IosDevice {
    pub ios_model_id: Option<String>,
    pub ios_version_id: Option<String>,
    pub locale: Option<String>,
    pub orientation: Option<String>,
}

/// The currently supported iOS devices.
#[derive(Default, Clone, Debug, PartialEq)]
pub struct IosDeviceCatalog {
    pub models: Option<Vec<IosModel>>,
    pub runtime_configuration: Option<IosRuntimeConfiguration>,
    pub versions: Option<Vec<IosVersion>>,
    pub xcode_versions: Option<Vec<XcodeVersion>>,
}

/// A file or directory to install on the device before the test starts.
#[derive(Default, Clone, Debug, PartialEq)]
pub struct IosDeviceFile {
    pub bundle_id: Option<String>,
    pub content: Option<FileReference>,
    pub device_path: Option<String>,
}

/// A list of iOS device configurations in which the test is to be executed.
#[derive(Default, Clone, Debug, PartialEq)]
pub struct IosDeviceList {
    pub ios_devices: Option<Vec<IosDevice>>,
}

/// A description of an iOS device tests may be run on.
#[derive(Default, Clone, Debug, PartialEq)]
pub struct IosModel {
    pub device_capabilities: Option<Vec<String>>,
    pub form_factor: Option<String>,
    pub id: Option<String>,
    pub name: Option<String>,
    pub screen_density: Option<i32>,
    pub screen_x: Option<i32>,
    pub screen_y: Option<i32>,
    pub supported_version_ids: Option<Vec<String>>,
    pub tags: Option<Vec<String>>,
}

/// iOS configuration that can be selected at the time a test is run.
#[derive(Default, Clone, Debug, PartialEq)]
pub struct IosRuntimeConfiguration {
    pub locales: Option<Vec<Locale>>,
    pub orientations: Option<Vec<Orientation>>,
}

/// A test of an iOS application that implements one or more game loop
/// scenarios.
#[derive(Default, Clone, Debug, PartialEq)]
pub struct IosTestLoop {
    pub app_bundle_id: Option<String>,
    pub app_ipa: Option<FileReference>,
    pub scenarios: Option<Vec<i32>>,
}

/// A description of how to set up an iOS device prior to running the test.
#[derive(Default, Clone, Debug, PartialEq)]
pub struct IosTestSetup {
    pub additional_ipas: Option<Vec<FileReference>>,
    pub network_profile: Option<String>,
    pub pull_directories: Option<Vec<IosDeviceFile>>,
    pub push_files: Option<Vec<IosDeviceFile>>,
}

/// An iOS version.
#[derive(Default, Clone, Debug, PartialEq)]
pub struct IosVersion {
    pub id: Option<String>,
    pub major_version: Option<i32>,
    pub minor_version: Option<i32>,
    pub supported_xcode_version_ids: Option<Vec<String>>,
    pub tags: Option<Vec<String>>,
}

/// A test of an iOS application that uses the XCTest framework.
#[derive(Default, Clone, Debug, PartialEq)]
pub struct IosXcTest {
    pub app_bundle_id: Option<String>,
    pub test_special_entitlements: Option<bool>,
    pub tests_zip: Option<FileReference>,
    pub xcode_version: Option<String>,
    pub xctestrun: Option<FileReference>,
}

/// Specifies an intent that starts the main launcher activity.
#[derive(Default, Clone, Debug, PartialEq)]
pub struct LauncherActivityIntent {
    _never_set: Option<bool>,
}

/// A location/region designation for language.
#[derive(Default, Clone, Debug, PartialEq)]
pub struct Locale {
    pub id: Option<String>,
    pub name: Option<String>,
    pub region: Option<String>,
    pub tags: Option<Vec<String>>,
}

/// Shards test cases into the specified groups of packages, classes, and/or
/// methods.
#[derive(Default, Clone, Debug, PartialEq)]
pub struct ManualSharding {
    pub test_targets_for_shard: Option<Vec<TestTargetsForShard>>,
}

/// An opaque binary blob file to install on the device before the test
/// starts.
#[derive(Default, Clone, Debug, PartialEq)]
pub struct ObbFile {
    pub obb: Option<FileReference>,
    pub obb_file_name: Option<String>,
}

/// Screen orientation of the device.
#[derive(Default, Clone, Debug, PartialEq)]
pub struct Orientation {
    pub id: Option<String>,
    pub name: Option<String>,
    pub tags: Option<Vec<String>>,
}

/// The currently provided software environment on the devices under test.
#[derive(Default, Clone, Debug, PartialEq)]
pub struct ProvidedSoftwareCatalog {
    pub androidx_orchestrator_version: Option<String>,
    pub orchestrator_version: Option<String>,
}

/// A file or directory to install on the device before the test starts.
#[derive(Default, Clone, Debug, PartialEq)]
pub struct RegularFile {
    pub content: Option<FileReference>,
    pub device_path: Option<String>,
}

/// Locations where the results of running the test are stored.
#[derive(Default, Clone, Debug, PartialEq)]
pub struct ResultStorage {
    pub google_cloud_storage: Option<GoogleCloudStorage>,
    pub results_url: Option<String>,
    pub tool_results_execution: Option<ToolResultsExecution>,
    pub tool_results_history: Option<ToolResultsHistory>,
}

/// Directs Robo to interact with a specific UI element if it is encountered
/// during the crawl.
#[derive(Default, Clone, Debug, PartialEq)]
pub struct RoboDirective {
    pub action_type: Option<String>,
    pub input_text: Option<String>,
    pub resource_name: Option<String>,
}

/// Message for specifying the start activities to crawl.
#[derive(Default, Clone, Debug, PartialEq)]
pub struct RoboStartingIntent {
    pub launcher_activity: Option<LauncherActivityIntent>,
    pub start_activity: Option<StartActivityIntent>,
    pub timeout: Option<String>,
}

/// Output only.
#[derive(Default, Clone, Debug, PartialEq)]
pub struct Shard {
    pub num_shards: Option<i32>,
    pub shard_index: Option<i32>,
    pub test_targets_for_shard: Option<TestTargetsForShard>,
}

/// Options for enabling sharding.
#[derive(Default, Clone, Debug, PartialEq)]
pub struct ShardingOption {
    pub manual_sharding: Option<ManualSharding>,
    pub uniform_sharding: Option<UniformSharding>,
}

/// A starting intent specified by an action, uri, and categories.
#[derive(Default, Clone, Debug, PartialEq)]
pub struct StartActivityIntent {
    pub action: Option<String>,
    pub categories: Option<Vec<String>>,
    pub uri: Option<String>,
}

/// There is no detailed description.
#[derive(Default, Clone, Debug, PartialEq)]
pub struct SystraceSetup {
    pub duration_seconds: Option<i32>,
}

/// Additional details about the progress of the running test.
#[derive(Default, Clone, Debug, PartialEq)]
pub struct TestDetails {
    pub error_message: Option<String>,
    pub progress_messages: Option<Vec<String>>,
}

/// A single test executed in a single environment.
#[derive(Default, Clone, Debug, PartialEq)]
pub struct TestExecution {
    pub environment: Option<Environment>,
    pub id: Option<String>,
    pub matrix_id: Option<String>,
    pub project_id: Option<String>,
    pub shard: Option<Shard>,
    pub state: Option<String>,
    pub test_details: Option<TestDetails>,
    pub test_specification: Option<TestSpecification>,
    pub timestamp: Option<String>,
    pub tool_results_step: Option<ToolResultsStep>,
}

/// TestMatrix captures all details about a test.
#[derive(Default, Clone, Debug, PartialEq)]
pub struct TestMatrix {
    pub client_info: Option<ClientInfo>,
    pub environment_matrix: Option<EnvironmentMatrix>,
    pub fail_fast: Option<bool>,
    pub flaky_test_attempts: Option<i32>,
    pub invalid_matrix_details: Option<String>,
    pub outcome_summary: Option<String>,
    pub project_id: Option<String>,
    pub result_storage: Option<ResultStorage>,
    pub state: Option<String>,
    pub test_executions: Option<Vec<TestExecution>>,
    pub test_matrix_id: Option<String>,
    pub test_specification: Option<TestSpecification>,
    pub timestamp: Option<String>,
}

/// A description of how to set up the Android device prior to running the
/// test.
#[derive(Default, Clone, Debug, PartialEq)]
pub struct TestSetup {
    pub account: Option<Account>,
    pub additional_apks: Option<Vec<Apk>>,
    pub directories_to_pull: Option<Vec<String>>,
    pub dont_autogrant_permissions: Option<bool>,
    pub environment_variables: Option<Vec<EnvironmentVariable>>,
    pub files_to_push: Option<Vec<DeviceFile>>,
    pub network_profile: Option<String>,
    pub systrace: Option<SystraceSetup>,
}

/// A description of how to run the test.
#[derive(Default, Clone, Debug, PartialEq)]
pub struct TestSpecification {
    pub android_instrumentation_test: Option<AndroidInstrumentationTest>,
    pub android_robo_test: Option<AndroidRoboTest>,
    pub android_test_loop: Option<AndroidTestLoop>,
    pub disable_performance_metrics: Option<bool>,
    pub disable_video_recording: Option<bool>,
    pub ios_test_loop: Option<IosTestLoop>,
    pub ios_test_setup: Option<IosTestSetup>,
    pub ios_xc_test: Option<IosXcTest>,
    pub test_setup: Option<TestSetup>,
    pub test_timeout: Option<String>,
}

/// Test targets for a shard.
#[derive(Default, Clone, Debug, PartialEq)]
pub struct TestTargetsForShard {
    pub test_targets: Option<Vec<String>>,
}

/// Represents a tool results execution resource.
#[derive(Default, Clone, Debug, PartialEq)]
pub struct ToolResultsExecution {
    pub execution_id: Option<String>,
    pub history_id: Option<String>,
    pub project_id: Option<String>,
}

/// Represents a tool results history resource.
#[derive(Default, Clone, Debug, PartialEq)]
pub struct ToolResultsHistory {
    pub history_id: Option<String>,
    pub project_id: Option<String>,
}

/// Represents a tool results step resource.
#[derive(Default, Clone, Debug, PartialEq)]
pub struct ToolResultsStep {
    pub execution_id: Option<String>,
    pub history_id: Option<String>,
    pub project_id: Option<String>,
    pub step_id: Option<String>,
}

/// Uniformly shards test cases given a total number of shards.
#[derive(Default, Clone, Debug, PartialEq)]
pub struct UniformSharding {
    pub num_shards: Option<i32>,
}

/// An Xcode version that an iOS version is compatible with.
#[derive(Default, Clone, Debug, PartialEq)]
pub struct XcodeVersion {
    pub tags: Option<Vec<String>>,
    pub version: Option<String>,
}

/// A builder for the *getApkDetails* method of the *applicationDetailService* resource: gets the details of an Android application APK.
pub struct ApplicationDetailServiceGetApkDetailCall {
    pub request: FileReference,
    pub additional_params: Vec<(String, String)>,
    pub scopes: Vec<String>,
}

impl ApplicationDetailServiceGetApkDetailCall {
    /// Sets the *request* property to the given value.
    pub fn request(self, new_value: FileReference) -> (r: Self)
        ensures
            r.request == new_value,
            r.additional_params == self.additional_params,
            r.scopes == self.scopes,
    {
        Self { request: new_value, ..self }
    }

    /// Sets an additional query parameter of this call, replacing an
    /// earlier one of the same name.
    pub fn param(self, name: &str, value: &str) -> (r: Self)
        ensures
            !has_param(self.additional_params@, name@) ==> r.additional_params@.len()
                == self.additional_params@.len() + 1 && r.additional_params@.subrange(
                0,
                self.additional_params@.len() as int,
            ) == self.additional_params@ && r.additional_params@.last().0@ == name@
                && r.additional_params@.last().1@ == value@,
            has_param(self.additional_params@, name@) ==> exists|k: int|
                {
                    &&& 0 <= k < self.additional_params@.len()
                    &&& self.additional_params@[k].0@ == name@
                    &&& (forall|j: int| 0 <= j < k ==> self.additional_params@[j].0@ != name@)
                    &&& r.additional_params@.len() == self.additional_params@.len()
                    &&& (forall|j: int|
                        0 <= j < self.additional_params@.len() && j != k
                            ==> r.additional_params@[j] == self.additional_params@[j])
                    &&& r.additional_params@[k].0@ == name@
                    &&& r.additional_params@[k].1@ == value@
                },
            r.request == self.request,
            r.scopes == self.scopes,
    {
        let mut s = self;
        upsert_param(&mut s.additional_params, String::from_str(name), String::from_str(value));
        proof {
            if !has_param(self.additional_params@, name@) {
                assert(s.additional_params@.subrange(0, self.additional_params@.len() as int)
                    =~= self.additional_params@);
            }
        }
        s
    }

    /// Identifies the authorization scope for the method you are
    /// building, adding it to the set of scopes unless it is already
    /// present.
    pub fn add_scope(self, scope: &str) -> (r: Self)
        ensures
            spec_has_scope(self.scopes@, scope@) ==> r.scopes@ == self.scopes@,
            !spec_has_scope(self.scopes@, scope@) ==> r.scopes@.len() == self.scopes@.len() + 1
                && r.scopes@.subrange(0, self.scopes@.len() as int) == self.scopes@
                && r.scopes@.last()@ == scope@,
            r.request == self.request,
            r.additional_params == self.additional_params,
    {
        let mut s = self;
        insert_scope(&mut s.scopes, String::from_str(scope));
        proof {
            if !spec_has_scope(self.scopes@, scope@) {
                assert(s.scopes@.subrange(0, self.scopes@.len() as int) =~= self.scopes@);
            }
        }
        s
    }

    /// Assembles this call into the [`CallSpec`] that the request
    /// pipeline executes. `body` is the serialized JSON form of the
    /// call's request value, produced by the caller's JSON codec.
    pub fn call_spec(self, body: String) -> (r: CallSpec)
        ensures
            r.call_id@ == "testing.applicationDetailService.getApkDetails"@,
            r.method == Method::Post,
            r.path@ == "v1/applicationDetailService/getApkDetails"@,
            r.query_params@.len() == 0,
            r.additional_params == self.additional_params,
            r.reserved@.len() == 1 && r.reserved@[0]@ == "alt"@,
            r.scopes == self.scopes,
            r.default_scope@ == "https://www.googleapis.com/auth/cloud-platform"@,
            r.body matches Some(b) && b == body,
    {
        let path = String::from_str("v1/applicationDetailService/getApkDetails");
        proof {
            assert(path@ =~= "v1/applicationDetailService/getApkDetails"@);
        }
        let mut query_params: Vec<(String, String)> = Vec::new();
        let mut reserved: Vec<String> = Vec::new();
        reserved.push(String::from_str("alt"));
        CallSpec {
            call_id: String::from_str("testing.applicationDetailService.getApkDetails"),
            method: Method::Post,
            path,
            query_params,
            additional_params: self.additional_params,
            reserved,
            scopes: self.scopes,
            default_scope: String::from_str(Scope::CloudPlatform.as_ref()),
            body: Some(body),
        }
    }
}

/// A builder for the *testMatrices.cancel* method of a *project* resource: cancels unfinished test executions in a test matrix.
pub struct ProjectTestMatriceCancelCall {
    pub project_id: String,
    pub test_matrix_id: String,
    pub additional_params: Vec<(String, String)>,
    pub scopes: Vec<String>,
}

impl ProjectTestMatriceCancelCall {
    /// Sets the *project id* property to the given value.
    pub fn project_id(self, new_value: &str) -> (r: Self)
        ensures
            r.project_id@ == new_value@,
            r.test_matrix_id == self.test_matrix_id,
            r.additional_params == self.additional_params,
            r.scopes == self.scopes,
    {
        Self { project_id: String::from_str(new_value), ..self }
    }

    /// Sets the *test matrix id* property to the given value.
    pub fn test_matrix_id(self, new_value: &str) -> (r: Self)
        ensures
            r.test_matrix_id@ == new_value@,
            r.project_id == self.project_id,
            r.additional_params == self.additional_params,
            r.scopes == self.scopes,
    {
        Self { test_matrix_id: String::from_str(new_value), ..self }
    }

    /// Sets an additional query parameter of this call, replacing an
    /// earlier one of the same name.
    pub fn param(self, name: &str, value: &str) -> (r: Self)
        ensures
            !has_param(self.additional_params@, name@) ==> r.additional_params@.len()
                == self.additional_params@.len() + 1 && r.additional_params@.subrange(
                0,
                self.additional_params@.len() as int,
            ) == self.additional_params@ && r.additional_params@.last().0@ == name@
                && r.additional_params@.last().1@ == value@,
            has_param(self.additional_params@, name@) ==> exists|k: int|
                {
                    &&& 0 <= k < self.additional_params@.len()
                    &&& self.additional_params@[k].0@ == name@
                    &&& (forall|j: int| 0 <= j < k ==> self.additional_params@[j].0@ != name@)
                    &&& r.additional_params@.len() == self.additional_params@.len()
                    &&& (forall|j: int|
                        0 <= j < self.additional_params@.len() && j != k
                            ==> r.additional_params@[j] == self.additional_params@[j])
                    &&& r.additional_params@[k].0@ == name@
                    &&& r.additional_params@[k].1@ == value@
                },
            r.project_id == self.project_id,
            r.test_matrix_id == self.test_matrix_id,
            r.scopes == self.scopes,
    {
        let mut s = self;
        upsert_param(&mut s.additional_params, String::from_str(name), String::from_str(value));
        proof {
            if !has_param(self.additional_params@, name@) {
                assert(s.additional_params@.subrange(0, self.additional_params@.len() as int)
                    =~= self.additional_params@);
            }
        }
        s
    }

    /// Identifies the authorization scope for the method you are
    /// building, adding it to the set of scopes unless it is already
    /// present.
    pub fn add_scope(self, scope: &str) -> (r: Self)
        ensures
            spec_has_scope(self.scopes@, scope@) ==> r.scopes@ == self.scopes@,
            !spec_has_scope(self.scopes@, scope@) ==> r.scopes@.len() == self.scopes@.len() + 1
                && r.scopes@.subrange(0, self.scopes@.len() as int) == self.scopes@
                && r.scopes@.last()@ == scope@,
            r.project_id == self.project_id,
            r.test_matrix_id == self.test_matrix_id,
            r.additional_params == self.additional_params,
    {
        let mut s = self;
        insert_scope(&mut s.scopes, String::from_str(scope));
        proof {
            if !spec_has_scope(self.scopes@, scope@) {
                assert(s.scopes@.subrange(0, self.scopes@.len() as int) =~= self.scopes@);
            }
        }
        s
    }

    /// Assembles this call into the [`CallSpec`] that the request
    /// pipeline executes; this call sends no request body.
    pub fn call_spec(self) -> (r: CallSpec)
        ensures
            r.call_id@ == "testing.projects.testMatrices.cancel"@,
            r.method == Method::Post,
            r.path@ == "v1/projects/"@ + self.project_id@ + "/testMatrices/"@ + self.test_matrix_id@ + ":cancel"@,
            r.query_params@.len() == 0,
            r.additional_params == self.additional_params,
            r.reserved@.len() == 3 && r.reserved@[0]@ == "alt"@ && r.reserved@[1]@ == "projectId"@ && r.reserved@[2]@ == "testMatrixId"@,
            r.scopes == self.scopes,
            r.default_scope@ == "https://www.googleapis.com/auth/cloud-platform"@,
            r.body is None,
    {
        let path = String::from_str("v1/projects/").concat(self.project_id.as_str()).concat("/testMatrices/").concat(self.test_matrix_id.as_str()).concat(":cancel");
        proof {
            assert(path@ =~= "v1/projects/"@ + self.project_id@ + "/testMatrices/"@ + self.test_matrix_id@ + ":cancel"@);
        }
        let mut query_params: Vec<(String, String)> = Vec::new();
        let mut reserved: Vec<String> = Vec::new();
        reserved.push(String::from_str("alt"));
        reserved.push(String::from_str("projectId"));
        reserved.push(String::from_str("testMatrixId"));
        CallSpec {
            call_id: String::from_str("testing.projects.testMatrices.cancel"),
            method: Method::Post,
            path,
            query_params,
            additional_params: self.additional_params,
            reserved,
            scopes: self.scopes,
            default_scope: String::from_str(Scope::CloudPlatform.as_ref()),
            body: None,
        }
    }
}

/// A builder for the *testMatrices.create* method of a *project* resource: creates and runs a matrix of tests according to the given specifications.
pub struct ProjectTestMatriceCreateCall {
    pub request: TestMatrix,
    pub project_id: String,
    pub request_id: Option<String>,
    pub additional_params: Vec<(String, String)>,
    pub scopes: Vec<String>,
}

impl ProjectTestMatriceCreateCall {
    /// Sets the *request* property to the given value.
    pub fn request(self, new_value: TestMatrix) -> (r: Self)
        ensures
            r.request == new_value,
            r.project_id == self.project_id,
            r.request_id == self.request_id,
            r.additional_params == self.additional_params,
            r.scopes == self.scopes,
    {
        Self { request: new_value, ..self }
    }

    /// Sets the *project id* property to the given value.
    pub fn project_id(self, new_value: &str) -> (r: Self)
        ensures
            r.project_id@ == new_value@,
            r.request == self.request,
            r.request_id == self.request_id,
            r.additional_params == self.additional_params,
            r.scopes == self.scopes,
    {
        Self { project_id: String::from_str(new_value), ..self }
    }

    /// Sets the *request id* property to the given value.
    pub fn request_id(self, new_value: &str) -> (r: Self)
        ensures
            r.request_id matches Some(v) && v@ == new_value@,
            r.request == self.request,
            r.project_id == self.project_id,
            r.additional_params == self.additional_params,
            r.scopes == self.scopes,
    {
        Self { request_id: Some(String::from_str(new_value)), ..self }
    }

    /// Sets an additional query parameter of this call, replacing an
    /// earlier one of the same name.
    pub fn param(self, name: &str, value: &str) -> (r: Self)
        ensures
            !has_param(self.additional_params@, name@) ==> r.additional_params@.len()
                == self.additional_params@.len() + 1 && r.additional_params@.subrange(
                0,
                self.additional_params@.len() as int,
            ) == self.additional_params@ && r.additional_params@.last().0@ == name@
                && r.additional_params@.last().1@ == value@,
            has_param(self.additional_params@, name@) ==> exists|k: int|
                {
                    &&& 0 <= k < self.additional_params@.len()
                    &&& self.additional_params@[k].0@ == name@
                    &&& (forall|j: int| 0 <= j < k ==> self.additional_params@[j].0@ != name@)
                    &&& r.additional_params@.len() == self.additional_params@.len()
                    &&& (forall|j: int|
                        0 <= j < self.additional_params@.len() && j != k
                            ==> r.additional_params@[j] == self.additional_params@[j])
                    &&& r.additional_params@[k].0@ == name@
                    &&& r.additional_params@[k].1@ == value@
                },
            r.request == self.request,
            r.project_id == self.project_id,
            r.request_id == self.request_id,
            r.scopes == self.scopes,
    {
        let mut s = self;
        upsert_param(&mut s.additional_params, String::from_str(name), String::from_str(value));
        proof {
            if !has_param(self.additional_params@, name@) {
                assert(s.additional_params@.subrange(0, self.additional_params@.len() as int)
                    =~= self.additional_params@);
            }
        }
        s
    }

    /// Identifies the authorization scope for the method you are
    /// building, adding it to the set of scopes unless it is already
    /// present.
    pub fn add_scope(self, scope: &str) -> (r: Self)
        ensures
            spec_has_scope(self.scopes@, scope@) ==> r.scopes@ == self.scopes@,
            !spec_has_scope(self.scopes@, scope@) ==> r.scopes@.len() == self.scopes@.len() + 1
                && r.scopes@.subrange(0, self.scopes@.len() as int) == self.scopes@
                && r.scopes@.last()@ == scope@,
            r.request == self.request,
            r.project_id == self.project_id,
            r.request_id == self.request_id,
            r.additional_params == self.additional_params,
    {
        let mut s = self;
        insert_scope(&mut s.scopes, String::from_str(scope));
        proof {
            if !spec_has_scope(self.scopes@, scope@) {
                assert(s.scopes@.subrange(0, self.scopes@.len() as int) =~= self.scopes@);
            }
        }
        s
    }

    /// Assembles this call into the [`CallSpec`] that the request
    /// pipeline executes. `body` is the serialized JSON form of the
    /// call's request value, produced by the caller's JSON codec.
    pub fn call_spec(self, body: String) -> (r: CallSpec)
        ensures
            r.call_id@ == "testing.projects.testMatrices.create"@,
            r.method == Method::Post,
            r.path@ == "v1/projects/"@ + self.project_id@ + "/testMatrices"@,
            (match self.request_id {
                Some(v) => r.query_params@.len() == 1 && r.query_params@[0].0@ == "requestId"@
                    && r.query_params@[0].1 == v,
                None => r.query_params@.len() == 0,
            }),
            r.additional_params == self.additional_params,
            r.reserved@.len() == 3 && r.reserved@[0]@ == "alt"@ && r.reserved@[1]@ == "projectId"@ && r.reserved@[2]@ == "requestId"@,
            r.scopes == self.scopes,
            r.default_scope@ == "https://www.googleapis.com/auth/cloud-platform"@,
            r.body matches Some(b) && b == body,
    {
        let path = String::from_str("v1/projects/").concat(self.project_id.as_str()).concat("/testMatrices");
        proof {
            assert(path@ =~= "v1/projects/"@ + self.project_id@ + "/testMatrices"@);
        }
        let mut query_params: Vec<(String, String)> = Vec::new();
        match self.request_id {
            Some(v) => query_params.push((String::from_str("requestId"), v)),
            None => {},
        }
        let mut reserved: Vec<String> = Vec::new();
        reserved.push(String::from_str("alt"));
        reserved.push(String::from_str("projectId"));
        reserved.push(String::from_str("requestId"));
        CallSpec {
            call_id: String::from_str("testing.projects.testMatrices.create"),
            method: Method::Post,
            path,
            query_params,
            additional_params: self.additional_params,
            reserved,
            scopes: self.scopes,
            default_scope: String::from_str(Scope::CloudPlatform.as_ref()),
            body: Some(body),
        }
    }
}

/// A builder for the *testMatrices.get* method of a *project* resource: checks the status of a test matrix.
pub struct ProjectTestMatriceGetCall {
    pub project_id: String,
    pub test_matrix_id: String,
    pub additional_params: Vec<(String, String)>,
    pub scopes: Vec<String>,
}

impl ProjectTestMatriceGetCall {
    /// Sets the *project id* property to the given value.
    pub fn project_id(self, new_value: &str) -> (r: Self)
        ensures
            r.project_id@ == new_value@,
            r.test_matrix_id == self.test_matrix_id,
            r.additional_params == self.additional_params,
            r.scopes == self.scopes,
    {
        Self { project_id: String::from_str(new_value), ..self }
    }

    /// Sets the *test matrix id* property to the given value.
    pub fn test_matrix_id(self, new_value: &str) -> (r: Self)
        ensures
            r.test_matrix_id@ == new_value@,
            r.project_id == self.project_id,
            r.additional_params == self.additional_params,
            r.scopes == self.scopes,
    {
        Self { test_matrix_id: String::from_str(new_value), ..self }
    }

    /// Sets an additional query parameter of this call, replacing an
    /// earlier one of the same name.
    pub fn param(self, name: &str, value: &str) -> (r: Self)
        ensures
            !has_param(self.additional_params@, name@) ==> r.additional_params@.len()
                == self.additional_params@.len() + 1 && r.additional_params@.subrange(
                0,
                self.additional_params@.len() as int,
            ) == self.additional_params@ && r.additional_params@.last().0@ == name@
                && r.additional_params@.last().1@ == value@,
            has_param(self.additional_params@, name@) ==> exists|k: int|
                {
                    &&& 0 <= k < self.additional_params@.len()
                    &&& self.additional_params@[k].0@ == name@
                    &&& (forall|j: int| 0 <= j < k ==> self.additional_params@[j].0@ != name@)
                    &&& r.additional_params@.len() == self.additional_params@.len()
                    &&& (forall|j: int|
                        0 <= j < self.additional_params@.len() && j != k
                            ==> r.additional_params@[j] == self.additional_params@[j])
                    &&& r.additional_params@[k].0@ == name@
                    &&& r.additional_params@[k].1@ == value@
                },
            r.project_id == self.project_id,
            r.test_matrix_id == self.test_matrix_id,
            r.scopes == self.scopes,
    {
        let mut s = self;
        upsert_param(&mut s.additional_params, String::from_str(name), String::from_str(value));
        proof {
            if !has_param(self.additional_params@, name@) {
                assert(s.additional_params@.subrange(0, self.additional_params@.len() as int)
                    =~= self.additional_params@);
            }
        }
        s
    }

    /// Identifies the authorization scope for the method you are
    /// building, adding it to the set of scopes unless it is already
    /// present.
    pub fn add_scope(self, scope: &str) -> (r: Self)
        ensures
            spec_has_scope(self.scopes@, scope@) ==> r.scopes@ == self.scopes@,
            !spec_has_scope(self.scopes@, scope@) ==> r.scopes@.len() == self.scopes@.len() + 1
                && r.scopes@.subrange(0, self.scopes@.len() as int) == self.scopes@
                && r.scopes@.last()@ == scope@,
            r.project_id == self.project_id,
            r.test_matrix_id == self.test_matrix_id,
            r.additional_params == self.additional_params,
    {
        let mut s = self;
        insert_scope(&mut s.scopes, String::from_str(scope));
        proof {
            if !spec_has_scope(self.scopes@, scope@) {
                assert(s.scopes@.subrange(0, self.scopes@.len() as int) =~= self.scopes@);
            }
        }
        s
    }

    /// Assembles this call into the [`CallSpec`] that the request
    /// pipeline executes; this call sends no request body.
    pub fn call_spec(self) -> (r: CallSpec)
        ensures
            r.call_id@ == "testing.projects.testMatrices.get"@,
            r.method == Method::Get,
            r.path@ == "v1/projects/"@ + self.project_id@ + "/testMatrices/"@ + self.test_matrix_id@,
            r.query_params@.len() == 0,
            r.additional_params == self.additional_params,
            r.reserved@.len() == 3 && r.reserved@[0]@ == "alt"@ && r.reserved@[1]@ == "projectId"@ && r.reserved@[2]@ == "testMatrixId"@,
            r.scopes == self.scopes,
            r.default_scope@ == "https://www.googleapis.com/auth/cloud-platform"@,
            r.body is None,
    {
        let path = String::from_str("v1/projects/").concat(self.project_id.as_str()).concat("/testMatrices/").concat(self.test_matrix_id.as_str());
        proof {
            assert(path@ =~= "v1/projects/"@ + self.project_id@ + "/testMatrices/"@ + self.test_matrix_id@);
        }
        let mut query_params: Vec<(String, String)> = Vec::new();
        let mut reserved: Vec<String> = Vec::new();
        reserved.push(String::from_str("alt"));
        reserved.push(String::from_str("projectId"));
        reserved.push(String::from_str("testMatrixId"));
        CallSpec {
            call_id: String::from_str("testing.projects.testMatrices.get"),
            method: Method::Get,
            path,
            query_params,
            additional_params: self.additional_params,
            reserved,
            scopes: self.scopes,
            default_scope: String::from_str(Scope::CloudPlatform.as_ref()),
            body: None,
        }
    }
}

/// A builder for the *get* method of the *testEnvironmentCatalog* resource: gets the catalog of supported test environments.
pub struct TestEnvironmentCatalogGetCall {
    pub environment_type: String,
    pub project_id: Option<String>,
    pub additional_params: Vec<(String, String)>,
    pub scopes: Vec<String>,
}

impl TestEnvironmentCatalogGetCall {
    /// Sets the *environment type* property to the given value.
    pub fn environment_type(self, new_value: &str) -> (r: Self)
        ensures
            r.environment_type@ == new_value@,
            r.project_id == self.project_id,
            r.additional_params == self.additional_params,
            r.scopes == self.scopes,
    {
        Self { environment_type: String::from_str(new_value), ..self }
    }

    /// Sets the *project id* property to the given value.
    pub fn project_id(self, new_value: &str) -> (r: Self)
        ensures
            r.project_id matches Some(v) && v@ == new_value@,
            r.environment_type == self.environment_type,
            r.additional_params == self.additional_params,
            r.scopes == self.scopes,
    {
        Self { project_id: Some(String::from_str(new_value)), ..self }
    }

    /// Sets an additional query parameter of this call, replacing an
    /// earlier one of the same name.
    pub fn param(self, name: &str, value: &str) -> (r: Self)
        ensures
            !has_param(self.additional_params@, name@) ==> r.additional_params@.len()
                == self.additional_params@.len() + 1 && r.additional_params@.subrange(
                0,
                self.additional_params@.len() as int,
            ) == self.additional_params@ && r.additional_params@.last().0@ == name@
                && r.additional_params@.last().1@ == value@,
            has_param(self.additional_params@, name@) ==> exists|k: int|
                {
                    &&& 0 <= k < self.additional_params@.len()
                    &&& self.additional_params@[k].0@ == name@
                    &&& (forall|j: int| 0 <= j < k ==> self.additional_params@[j].0@ != name@)
                    &&& r.additional_params@.len() == self.additional_params@.len()
                    &&& (forall|j: int|
                        0 <= j < self.additional_params@.len() && j != k
                            ==> r.additional_params@[j] == self.additional_params@[j])
                    &&& r.additional_params@[k].0@ == name@
                    &&& r.additional_params@[k].1@ == value@
                },
            r.environment_type == self.environment_type,
            r.project_id == self.project_id,
            r.scopes == self.scopes,
    {
        let mut s = self;
        upsert_param(&mut s.additional_params, String::from_str(name), String::from_str(value));
        proof {
            if !has_param(self.additional_params@, name@) {
                assert(s.additional_params@.subrange(0, self.additional_params@.len() as int)
                    =~= self.additional_params@);
            }
        }
        s
    }

    /// Identifies the authorization scope for the method you are
    /// building, adding it to the set of scopes unless it is already
    /// present.
    pub fn add_scope(self, scope: &str) -> (r: Self)
        ensures
            spec_has_scope(self.scopes@, scope@) ==> r.scopes@ == self.scopes@,
            !spec_has_scope(self.scopes@, scope@) ==> r.scopes@.len() == self.scopes@.len() + 1
                && r.scopes@.subrange(0, self.scopes@.len() as int) == self.scopes@
                && r.scopes@.last()@ == scope@,
            r.environment_type == self.environment_type,
            r.project_id == self.project_id,
            r.additional_params == self.additional_params,
    {
        let mut s = self;
        insert_scope(&mut s.scopes, String::from_str(scope));
        proof {
            if !spec_has_scope(self.scopes@, scope@) {
                assert(s.scopes@.subrange(0, self.scopes@.len() as int) =~= self.scopes@);
            }
        }
        s
    }

    /// Assembles this call into the [`CallSpec`] that the request
    /// pipeline executes; this call sends no request body.
    pub fn call_spec(self) -> (r: CallSpec)
        ensures
            r.call_id@ == "testing.testEnvironmentCatalog.get"@,
            r.method == Method::Get,
            r.path@ == "v1/testEnvironmentCatalog/"@ + self.environment_type@,
            (match self.project_id {
                Some(v) => r.query_params@.len() == 1 && r.query_params@[0].0@ == "projectId"@
                    && r.query_params@[0].1 == v,
                None => r.query_params@.len() == 0,
            }),
            r.additional_params == self.additional_params,
            r.reserved@.len() == 3 && r.reserved@[0]@ == "alt"@ && r.reserved@[1]@ == "environmentType"@ && r.reserved@[2]@ == "projectId"@,
            r.scopes == self.scopes,
            r.default_scope@ == "https://www.googleapis.com/auth/cloud-platform"@,
            r.body is None,
    {
        let path = String::from_str("v1/testEnvironmentCatalog/").concat(self.environment_type.as_str());
        proof {
            assert(path@ =~= "v1/testEnvironmentCatalog/"@ + self.environment_type@);
        }
        let mut query_params: Vec<(String, String)> = Vec::new();
        match self.project_id {
            Some(v) => query_params.push((String::from_str("projectId"), v)),
            None => {},
        }
        let mut reserved: Vec<String> = Vec::new();
        reserved.push(String::from_str("alt"));
        reserved.push(String::from_str("environmentType"));
        reserved.push(String::from_str("projectId"));
        CallSpec {
            call_id: String::from_str("testing.testEnvironmentCatalog.get"),
            method: Method::Get,
            path,
            query_params,
            additional_params: self.additional_params,
            reserved,
            scopes: self.scopes,
            default_scope: String::from_str(Scope::CloudPlatform.as_ref()),
            body: None,
        }
    }
}

/// Access to the *applicationDetailService* resource's methods.
pub struct ApplicationDetailServiceMethods {}

impl ApplicationDetailServiceMethods {
    pub fn new() -> ApplicationDetailServiceMethods {
        ApplicationDetailServiceMethods {  }
    }

    /// Creates a builder that gets the details of an Android application
    /// APK described by the given file reference.
    pub fn get_apk_details(&self, request: FileReference) -> (r:
        ApplicationDetailServiceGetApkDetailCall)
        ensures
            r.request == request,
            r.additional_params@.len() == 0,
            r.scopes@.len() == 0,
    {
        ApplicationDetailServiceGetApkDetailCall {
            request,
            additional_params: Vec::new(),
            scopes: Vec::new(),
        }
    }
}

/// Access to a *project* resource's methods.
pub struct ProjectMethods {}

impl ProjectMethods {
    pub fn new() -> ProjectMethods {
        ProjectMethods {  }
    }

    /// Creates a builder that cancels unfinished test executions in a
    /// test matrix.
    pub fn test_matrices_cancel(&self, project_id: &str, test_matrix_id: &str) -> (r:
        ProjectTestMatriceCancelCall)
        ensures
            r.project_id@ == project_id@,
            r.test_matrix_id@ == test_matrix_id@,
            r.additional_params@.len() == 0,
            r.scopes@.len() == 0,
    {
        ProjectTestMatriceCancelCall {
            project_id: String::from_str(project_id),
            test_matrix_id: String::from_str(test_matrix_id),
            additional_params: Vec::new(),
            scopes: Vec::new(),
        }
    }

    /// Creates a builder that creates and runs a matrix of tests
    /// according to the given specifications.
    pub fn test_matrices_create(&self, request: TestMatrix, project_id: &str) -> (r:
        ProjectTestMatriceCreateCall)
        ensures
            r.request == request,
            r.project_id@ == project_id@,
            r.request_id is None,
            r.additional_params@.len() == 0,
            r.scopes@.len() == 0,
    {
        ProjectTestMatriceCreateCall {
            request,
            project_id: String::from_str(project_id),
            request_id: None,
            additional_params: Vec::new(),
            scopes: Vec::new(),
        }
    }

    /// Creates a builder that checks the status of a test matrix.
    pub fn test_matrices_get(&self, project_id: &str, test_matrix_id: &str) -> (r:
        ProjectTestMatriceGetCall)
        ensures
            r.project_id@ == project_id@,
            r.test_matrix_id@ == test_matrix_id@,
            r.additional_params@.len() == 0,
            r.scopes@.len() == 0,
    {
        ProjectTestMatriceGetCall {
            project_id: String::from_str(project_id),
            test_matrix_id: String::from_str(test_matrix_id),
            additional_params: Vec::new(),
            scopes: Vec::new(),
        }
    }
}

/// Access to the *testEnvironmentCatalog* resource's methods.
pub struct TestEnvironmentCatalogMethods {}

impl TestEnvironmentCatalogMethods {
    pub fn new() -> TestEnvironmentCatalogMethods {
        TestEnvironmentCatalogMethods {  }
    }

    /// Creates a builder that gets the catalog of supported test
    /// environments for the given environment type.
    pub fn get(&self, environment_type: &str) -> (r: TestEnvironmentCatalogGetCall)
        ensures
            r.environment_type@ == environment_type@,
            r.project_id is None,
            r.additional_params@.len() == 0,
            r.scopes@.len() == 0,
    {
        TestEnvironmentCatalogGetCall {
            environment_type: String::from_str(environment_type),
            project_id: None,
            additional_params: Vec::new(),
            scopes: Vec::new(),
        }
    }
}

} // verus!
