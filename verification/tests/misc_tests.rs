use ucom::cli::{add_step, AddArguments, AddStep, UnityTemplateFile};
use ucom::cache::{cache_state, is_remote_newer_than_local, sanitize_filename, CacheError, CacheSettings, CacheState};
use ucom::command::Platform;
use ucom::editor::{default_editor_dir, editor_exe_sub_path, is_unity_editor_running};
use ucom::web_releases::{
    release_notes_url, release_notes_url_for, version_from_url, ReleaseFilter, ReleaseInfo,
    UnityVersion,
};
use ucom::nunit::{is_listed, TestResult};
use ucom::cli::ShowResults;
use ucom::project::ProjectPath;
use ucom::version::BuildType;

#[test]
fn cache_setting_is_made_once() {
    let mut c = CacheSettings::new();
    assert!(c.is_cache_enabled());
    assert_eq!(c.set_cache_enabled(false), Ok(()));
    assert!(!c.is_cache_enabled());
    assert_eq!(c.set_cache_enabled(true), Err(CacheError::AlreadySet));
    assert!(!c.is_cache_enabled());
    let mut d = CacheSettings::new();
    assert_eq!(d.set_cache_from_env(None), Ok(()));
    assert!(d.is_cache_enabled());
    assert_eq!(d.set_cache_from_env(Some("0")), Ok(()));
    assert!(!d.is_cache_enabled());
    let mut e = CacheSettings::new();
    assert_eq!(e.set_cache_from_env(Some("1")), Ok(()));
    assert!(e.is_cache_enabled());
}

#[test]
fn cache_files_and_states() {
    assert_eq!(
        sanitize_filename("https://a.b/c?d=e f"),
        "https___a_b_c_d=e_f"
    );
    assert_eq!(cache_state(None, true, false), CacheState::Expired);
    assert_eq!(cache_state(Some(3600), true, true), CacheState::Valid);
    assert_eq!(cache_state(Some(3601), true, false), CacheState::RefreshNeeded);
    assert_eq!(cache_state(Some(3601), false, false), CacheState::Expired);
    assert_eq!(cache_state(Some(3601), true, true), CacheState::Expired);
    assert!(is_remote_newer_than_local(10, None));
    assert!(is_remote_newer_than_local(10, Some(11)));
    assert!(!is_remote_newer_than_local(10, Some(10)));
}

#[test]
fn editor_processes() {
    let project = ProjectPath::try_from("/work/Game".to_string(), true).ok().unwrap();
    let lines = vec![
        "/Applications/Unity Hub.app/Contents/MacOS/Unity Hub".to_string(),
        "/Applications/Unity/Hub/Editor/2022.3.5f1/Unity.app/Contents/MacOS/Unity -projectpath /work/Game".to_string(),
    ];
    assert!(is_unity_editor_running(&project, &lines, Platform::MacOs));
    assert!(!is_unity_editor_running(&project, &lines[..1], Platform::MacOs));
    assert!(!is_unity_editor_running(&project, &lines, Platform::Other));
    let windows = vec!["C:\\Editor\\x.exe -projectPath /work/Game".to_string()];
    assert!(is_unity_editor_running(&project, &windows, Platform::Windows));
    assert!(!is_unity_editor_running(&project, &windows, Platform::MacOs));
}

#[test]
fn test_results() {
    assert_eq!(TestResult::from("Passed"), TestResult::Passed);
    assert_eq!(TestResult::from("Failed(Child)"), TestResult::Failed);
    assert_eq!(TestResult::from("Failed"), TestResult::Failed);
    assert_eq!(TestResult::from("Inconclusive"), TestResult::Inconclusive);
    assert_eq!(TestResult::from("Skipped"), TestResult::Skipped);
    assert_eq!(TestResult::from("passed"), TestResult::Invalid);
    assert_eq!(TestResult::Skipped.as_ref(), "Skipped");
}

#[test]
fn legacy_versions_and_urls() {
    let v = UnityVersion::parse("2021.2.14f1").ok().unwrap();
    assert_eq!(v.year, 2021);
    assert_eq!(v.point, 2);
    assert_eq!(v.patch, 14);
    assert_eq!(v.build_type, BuildType::Final);
    assert_eq!(v.build, 1);
    assert_eq!(v.to_string(), "2021.2.14f1");
    assert!(UnityVersion::parse("2021.2").is_err());
    let w = UnityVersion::parse("2021.2.1f1f2").ok().unwrap();
    assert_eq!(w.build, 1);
    assert_eq!(
        version_from_url("unityhub://2021.2.14f1/bcb93e5482d2"),
        Some(v)
    );
    assert_eq!(version_from_url("no-slashes"), None);
    assert_eq!(
        release_notes_url(v),
        "https://unity.com/releases/editor/whats-new/2021.2.14"
    );
    assert_eq!(
        release_notes_url_for("2021.2.14f1"),
        "https://unity.com/releases/editor/whats-new/2021.2.14"
    );
    let info = ReleaseInfo::new(v, "date".to_string(), "url".to_string());
    assert!(ReleaseFilter::All.eval(&info.version));
    assert!(ReleaseFilter::Year { year: 2021 }.eval(&info.version));
    assert!(!ReleaseFilter::Point { year: 2021, point: 3 }.eval(&info.version));
}

fn add_args(template: UnityTemplateFile, force: bool, content: bool, url: bool) -> AddArguments {
    AddArguments {
        template,
        project_dir: ".".to_string(),
        force,
        display_content: content,
        display_url: url,
    }
}

#[test]
fn add_command_decisions() {
    assert_eq!(UnityTemplateFile::Builder.destination_dir(), "Assets/Plugins/Ucom/Editor");
    assert_eq!(UnityTemplateFile::BuilderMenu.destination_dir(), "Assets/Plugins/Ucom/Editor");
    assert_eq!(UnityTemplateFile::GitIgnore.destination_dir(), "");
    let menu = UnityTemplateFile::BuilderMenu;
    assert_eq!(add_step(&add_args(menu, false, true, true), true, true), AddStep::ShowContent);
    assert_eq!(add_step(&add_args(menu, false, false, true), false, false), AddStep::NoUrl);
    assert_eq!(add_step(&add_args(menu, false, false, false), true, false), AddStep::AlreadyExists);
    assert_eq!(
        add_step(&add_args(menu, false, false, false), false, false),
        AddStep::Add { with_builder: true }
    );
    assert_eq!(
        add_step(&add_args(menu, false, false, false), false, true),
        AddStep::Add { with_builder: false }
    );
    assert_eq!(
        add_step(&add_args(menu, true, false, false), true, true),
        AddStep::Add { with_builder: true }
    );
    assert_eq!(
        add_step(&add_args(UnityTemplateFile::GitIgnore, false, false, false), false, false),
        AddStep::Add { with_builder: false }
    );
}

#[test]
fn listed_test_cases() {
    assert!(is_listed(ShowResults::All, TestResult::Passed));
    assert!(!is_listed(ShowResults::Errors, TestResult::Passed));
    assert!(is_listed(ShowResults::Errors, TestResult::Skipped));
    assert!(is_listed(ShowResults::Errors, TestResult::Failed));
    assert!(!is_listed(ShowResults::NoResults, TestResult::Failed));
}

#[test]
fn editor_locations() {
    assert_eq!(editor_exe_sub_path(Platform::MacOs), Some("Unity.app/Contents/MacOS/Unity"));
    assert_eq!(editor_exe_sub_path(Platform::Windows), Some("Editor\\Unity.exe"));
    assert_eq!(editor_exe_sub_path(Platform::Other), None);
    assert_eq!(default_editor_dir(Platform::MacOs), Some("/Applications/Unity/Hub/Editor/"));
    assert_eq!(default_editor_dir(Platform::Windows), Some("C:\\Program Files\\Unity\\Hub\\Editor"));
    assert_eq!(default_editor_dir(Platform::Other), None);
}

#[test]
fn result_names_read_back() {
    for r in [TestResult::Passed, TestResult::Failed, TestResult::Inconclusive, TestResult::Skipped, TestResult::Invalid] {
        assert_eq!(TestResult::from(r.as_ref()), r);
    }
}

#[test]
fn build_type_names_read_back() {
    for bt in [BuildType::Alpha, BuildType::Beta, BuildType::ReleaseCandidate, BuildType::Final] {
        assert_eq!(BuildType::from_short_str(bt.as_short_str()), Ok(bt));
        assert_eq!(BuildType::find_in(bt.as_short_str()), Some(bt));
    }
}
