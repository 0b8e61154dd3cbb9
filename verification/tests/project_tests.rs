use std::str::FromStr;

use ucom::project::{
    check_for_assets_directory, editor_executable_path, installed_editor_executable, join_path,
    validate_project_path, EditorError,
    version_from_line, BuildProfilesStatus, Manifest, PackageInfo, PackageSource, Packages,
    PackagesAvailability, PackagesInfoLevel, PathError, ProjectError, ProjectPath, ProjectSettings,
    ProjectSetup, SettingsError, shown_packages,
};
use ucom::version::UnityVersion;

const PROJECT_SETTINGS_ASSET: &str = "%YAML 1.1
%TAG !u! tag:unity3d.com,2011:
--- !u!129 &1
PlayerSettings:
  m_ObjectHideFlags: 0
  serializedVersion: 26
  productGUID: 4b2b5d5f0c3c8f4a9f0a7a3f4b2b5d5f
  AndroidProfiler: 0
  AndroidFilterTouchesWhenObscured: 0
  defaultScreenOrientation: 4
  targetDevice: 2
  useOnDemandResources: 0
  accelerometerFrequency: 60
  companyName: DefaultCompany
  productName: WebTest
  defaultCursor: {fileID: 0}
  cursorHotspot: {x: 0, y: 0}
  m_SplashScreenBackgroundColor: {r: 0.13725491, g: 0.12156863, b: 0.1254902, a: 1}
  bundleVersion: 0.1
  preloadedAssets: []
";

fn lines(text: &str) -> Vec<String> {
    text.lines().map(|l| l.to_string()).collect()
}

#[test]
fn test_project_settings_deserialization() {
    let data = lines(PROJECT_SETTINGS_ASSET);
    let settings = ProjectSettings::from_lines(&data).ok().unwrap();
    assert_eq!(settings.product_name, "WebTest");
    assert_eq!(settings.company_name, "DefaultCompany");
    assert_eq!(settings.bundle_version, "0.1");
}

#[test]
fn project_settings_need_all_three_values() {
    let data = lines("  productName: WebTest\n  companyName: DefaultCompany\n");
    assert_eq!(
        ProjectSettings::from_lines(&data).err(),
        Some(SettingsError::MissingValue)
    );
}

#[test]
fn first_value_wins() {
    let data = lines("productName: A\nproductName: B\ncompanyName: C\nbundleVersion: 1");
    let s = ProjectSettings::from_lines(&data).ok().unwrap();
    assert_eq!(s.product_name, "A");
}

#[test]
fn parse_value_of_a_line() {
    assert_eq!(
        ProjectSettings::try_parse_value("key", "  key :  some value  "),
        Some("some value".to_string())
    );
    assert_eq!(ProjectSettings::try_parse_value("key", "other: x"), None);
    assert_eq!(ProjectSettings::try_parse_value("key", "key"), None);
    assert_eq!(
        ProjectSettings::try_parse_value("url", "url: http://x"),
        Some("http://x".to_string())
    );
}

#[test]
fn project_version_line() {
    assert_eq!(
        version_from_line("m_EditorVersion: 2021.3.9f1\n"),
        Some(UnityVersion::from_str("2021.3.9f1").unwrap())
    );
    assert_eq!(version_from_line("m_EditorVersionWithRevision: 2021.3.9f1"), None);
    assert_eq!(version_from_line("m_EditorVersion: nonsense"), None);
}

#[test]
fn project_paths() {
    let p = ProjectPath::try_from("/p".to_string(), true).ok().unwrap();
    assert_eq!(p.as_str(), "/p");
    assert!(p.ensure_assets_directory_exists(true).is_ok());
    assert_eq!(
        p.ensure_assets_directory_exists(false).err(),
        Some(ProjectError::NoAssetsDirectory("/p".to_string()))
    );
    assert_eq!(
        ProjectPath::try_from("/q".to_string(), false).err(),
        Some(ProjectError::NoProject("/q".to_string()))
    );
    assert!(check_for_assets_directory("/p", true).is_ok());
    let setup = ProjectSetup::new(p, "m_EditorVersion: 2022.3.5f1").ok().unwrap();
    assert_eq!(setup.unity_version, UnityVersion::from_str("2022.3.5f1").unwrap());
    assert_eq!(
        setup.editor_executable("/Applications/Unity/Hub/Editor/", "Unity.app/Contents/MacOS/Unity", '/'),
        "/Applications/Unity/Hub/Editor/2022.3.5f1/Unity.app/Contents/MacOS/Unity"
    );
    assert_eq!(join_path("a", "b", '/'), "a/b");
    assert_eq!(join_path("", "b", '/'), "b");
    assert_eq!(
        editor_executable_path("C:\\Hub", UnityVersion::from_str("6000.0.1f1").unwrap(), "Editor\\Unity.exe", '\\'),
        "C:\\Hub\\6000.0.1f1\\Editor\\Unity.exe"
    );
}

#[test]
fn validating_paths() {
    assert_eq!(
        validate_project_path("~/x", true, true, true, false, "C:\\w\\~\\x"),
        Err(PathError::HomeOnWindows("~/x".to_string()))
    );
    assert_eq!(validate_project_path("~/x", false, true, true, false, "/w/~/x"), Ok("/w/~/x".to_string()));
    assert_eq!(validate_project_path("/x/../y", false, true, true, true, "/y"), Ok("/x/../y".to_string()));
    assert_eq!(
        validate_project_path("/x", false, false, false, true, "/x"),
        Err(PathError::Missing("/x".to_string()))
    );
    assert_eq!(
        validate_project_path("/x", false, true, false, true, "/x"),
        Err(PathError::NotADirectory("/x".to_string()))
    );
}

#[test]
fn installed_editors() {
    let v = UnityVersion::from_str("2022.3.1f1").unwrap();
    assert_eq!(
        installed_editor_executable("/Hub/Editor", v, "Unity.app/Contents/MacOS/Unity", '/', true),
        Ok("/Hub/Editor/2022.3.1f1/Unity.app/Contents/MacOS/Unity".to_string())
    );
    assert_eq!(
        installed_editor_executable("/Hub/Editor", v, "Unity.app/Contents/MacOS/Unity", '/', false),
        Err(EditorError::NotInstalled(v))
    );
}

#[test]
fn package_source_names() {
    assert_eq!(PackageSource::from_name("local-tarball"), Some(PackageSource::LocalTarball));
    assert_eq!(PackageSource::from_name("builtin"), Some(PackageSource::Builtin));
    assert_eq!(PackageSource::from_name("registry"), Some(PackageSource::Registry));
    assert_eq!(PackageSource::from_name("Registry"), None);
}

fn package(depth: u32, source: Option<PackageSource>, url: Option<&str>) -> PackageInfo {
    PackageInfo {
        version: "1.0.0".to_string(),
        depth,
        source,
        dependencies: vec![],
        url: url.map(|u| u.to_string()),
    }
}

#[test]
fn package_levels() {
    let git = package(0, Some(PackageSource::Git), None);
    let unity_registry = package(0, Some(PackageSource::Registry), Some("https://packages.unity.com"));
    let other_registry = package(0, Some(PackageSource::Registry), Some("https://npm.example.com"));
    let builtin = package(0, Some(PackageSource::Builtin), None);
    let dependency = package(1, Some(PackageSource::Git), None);

    assert!(!PackagesInfoLevel::NoPackages.is_allowed("a", &git));
    assert!(PackagesInfoLevel::ExcludingUnity.is_allowed("a", &git));
    assert!(!PackagesInfoLevel::ExcludingUnity.is_allowed("a", &unity_registry));
    assert!(PackagesInfoLevel::ExcludingUnity.is_allowed("a", &other_registry));
    assert!(PackagesInfoLevel::IncludingUnity.is_allowed("a", &unity_registry));
    assert!(!PackagesInfoLevel::IncludingUnity.is_allowed("com.unity.modules.ui", &builtin));
    assert!(PackagesInfoLevel::IncludingUnity.evaluate("com.unity.feature.2d", &builtin));
    assert!(!PackagesInfoLevel::IncludingUnity.is_allowed("a", &dependency));
    assert!(PackagesInfoLevel::All.is_allowed("a", &dependency));
    assert_eq!(PackagesInfoLevel::ExcludingUnity.as_str(), "no-unity");
    assert_eq!(PackageSource::LocalTarball.to_short_str(), "T");
}

#[test]
fn shown_packages_are_ordered_by_source() {
    let packages = Packages {
        dependencies: vec![
            ("a".to_string(), package(0, Some(PackageSource::Registry), Some("https://x"))),
            ("b".to_string(), package(0, Some(PackageSource::Git), None)),
            ("c".to_string(), package(1, Some(PackageSource::Local), None)),
            ("d".to_string(), package(0, Some(PackageSource::Embedded), None)),
            ("e".to_string(), package(0, None, None)),
        ],
    };
    assert_eq!(shown_packages(&packages, PackagesInfoLevel::ExcludingUnity), vec![3, 1, 0]);
    assert_eq!(shown_packages(&packages, PackagesInfoLevel::All), vec![4, 2, 3, 1, 0]);
}

#[test]
fn packages_availability() {
    let manifest = Manifest {
        dependencies: vec![],
        enable_lock_file: Some(false),
    };
    assert!(matches!(
        Packages::availability(Some(&manifest), None),
        PackagesAvailability::LockFileDisabled
    ));
    assert!(matches!(Packages::availability(None, None), PackagesAvailability::NoManifest));
    let manifest = Manifest {
        dependencies: vec![],
        enable_lock_file: None,
    };
    assert!(matches!(
        Packages::availability(Some(&manifest), None),
        PackagesAvailability::NoLockFile
    ));
    assert!(matches!(
        Packages::availability(Some(&manifest), Some(Packages { dependencies: vec![] })),
        PackagesAvailability::Packages(_)
    ));
}

#[test]
fn build_profiles() {
    let p = ProjectPath::try_from("/p".to_string(), true).ok().unwrap();
    let v5 = UnityVersion::from_str("2022.3.1f1").unwrap();
    let v6 = UnityVersion::from_str("6000.0.1f1").unwrap();
    assert!(matches!(p.build_profiles(v5, Some(vec![]), '/'), BuildProfilesStatus::NotSupported));
    assert!(matches!(p.build_profiles(v6, None, '/'), BuildProfilesStatus::NotFound));
    assert!(matches!(
        p.build_profiles(v6, Some(vec!["notes.txt".to_string(), ".asset".to_string()]), '/'),
        BuildProfilesStatus::NotFound
    ));
    match p.build_profiles(
        v6,
        Some(vec![
            "Web.asset".to_string(),
            "android.asset".to_string(),
            "readme.md".to_string(),
        ]),
        '/',
    ) {
        BuildProfilesStatus::Available(v) => assert_eq!(
            v,
            vec![
                "Assets/Settings/Build Profiles/android.asset".to_string(),
                "Assets/Settings/Build Profiles/Web.asset".to_string(),
            ]
        ),
        _ => panic!("expected profiles"),
    }
}
