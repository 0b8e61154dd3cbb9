use std::str::FromStr;

use ucom::listing::{update_line, VersionInfo, VersionType};
use ucom::project::ProjectSettings;
use ucom::releases::{
    find_available_updates, ReleaseCollection, ReleaseData, ReleaseNotes, ReleaseStream,
    SortedReleaseCollection,
};
use ucom::report::{
    editor_status, info_release_notes, markdown_h1, markdown_item, markdown_marked,
    release_notes_section, updates_report, validate_report_path, EditorStatus, ReportPathError,
};
use ucom::version::UnityVersion;

fn v(s: &str) -> UnityVersion {
    UnityVersion::from_str(s).unwrap()
}

fn release(s: &str, date: i64) -> ReleaseData {
    ReleaseData {
        version: v(s),
        release_date: date,
        stream: ReleaseStream::Lts,
        release_notes: ReleaseNotes {
            notes_type: "MD".to_string(),
            url: format!("https://notes/{s}.md"),
        },
        short_revision: String::new(),
        sku_family: String::new(),
        unity_hub_deep_link: format!("unityhub://{s}/abc"),
        recommended: false,
    }
}

#[test]
fn report_paths() {
    assert_eq!(validate_report_path(false, Some("md")), Ok(()));
    assert_eq!(validate_report_path(true, Some("md")), Err(ReportPathError::IsDirectory));
    assert_eq!(validate_report_path(false, Some("txt")), Err(ReportPathError::NotMarkdown));
    assert_eq!(validate_report_path(false, Some("MD")), Err(ReportPathError::NotMarkdown));
    assert_eq!(validate_report_path(false, None), Err(ReportPathError::NotMarkdown));
}

#[test]
fn editor_statuses() {
    assert_eq!(editor_status(true, false), EditorStatus::InstalledLatest);
    assert_eq!(editor_status(true, true), EditorStatus::InstalledUpdateAvailable);
    assert_eq!(editor_status(false, false), EditorStatus::NotInstalledLatest);
    assert_eq!(editor_status(false, true), EditorStatus::NotInstalledOutdated);
    assert_eq!(editor_status(false, true).as_str(), "not installed (outdated version)");
}

#[test]
fn markdown_lines() {
    assert_eq!(markdown_h1("Title"), "# Title\n");
    assert_eq!(markdown_item("x"), "- x\n");
    assert_eq!(markdown_marked('✓', "ok"), "- ✓ ok\n");
}

#[test]
fn release_notes_sections() {
    let rd = release("2022.3.2f1", 0);
    assert_eq!(
        release_notes_section(&rd, "Fixes."),
        "\n## Release notes for [2022.3.2f1](https://notes/2022.3.2f1.md)\n[install in Unity HUB](unityhub://2022.3.2f1/abc)\n\nFixes.\n"
    );
    assert_eq!(
        info_release_notes(&rd, "Fixes."),
        "\n## Release notes for [2022.3.2f1](https://notes/2022.3.2f1.md)\nFixes.\n"
    );
}

#[test]
fn updates_report_text() {
    let c = ReleaseCollection::from_releases(
        0,
        None,
        vec![release("2022.3.1f1", 0), release("2022.3.2f1", 86_400), release("2022.3.3f1", 172_800)],
    );
    let updates = find_available_updates(v("2022.3.1f1"), SortedReleaseCollection::new(c)).ok().unwrap();
    let settings: Result<ProjectSettings, String> = Ok(ProjectSettings {
        product_name: "Game".to_string(),
        company_name: "Co".to_string(),
        bundle_version: "0.1".to_string(),
    });
    let text = updates_report("/p", &settings, &updates, false, &["A".to_string(), "B".to_string()]);
    assert_eq!(
        text,
        "# Unity updates for: `/p`\n\
- Product name:  Game\n\
- Company name:  Co\n\
- Version:       0.1\n\
\n\
## Unity editor status: not installed (outdated version)\n\
- ✗ 2022.3.1f1 (1970-01-01) - https://unity.com/releases/editor/whats-new/2022.3.1f1#notes > [install in Unity HUB](unityhub://2022.3.1f1/abc)\n\
\n\
## Release notes for [2022.3.2f1](https://notes/2022.3.2f1.md)\n\
[install in Unity HUB](unityhub://2022.3.2f1/abc)\n\
\n\
A\n\
\n\
## Release notes for [2022.3.3f1](https://notes/2022.3.3f1.md)\n\
[install in Unity HUB](unityhub://2022.3.3f1/abc)\n\
\n\
B\n"
    );
    let failed: Result<ProjectSettings, String> = Err("missing".to_string());
    let c2 = ReleaseCollection::from_releases(0, None, vec![release("2022.3.1f1", 0)]);
    let latest = find_available_updates(v("2022.3.1f1"), SortedReleaseCollection::new(c2)).ok().unwrap();
    assert_eq!(
        updates_report("/p", &failed, &latest, true, &[]),
        "# Unity updates for: `/p`\n\
- Could not read project settings: missing\n\
\n\
## Unity editor status: installed (latest version)\n\
- ✓ 2022.3.1f1 (1970-01-01) - https://unity.com/releases/editor/whats-new/2022.3.1f1#notes\n"
    );
}

#[test]
fn update_lines() {
    let rd = release("2022.3.1f1", 0);
    let info = |t: VersionType| VersionInfo { version: v("2022.3.1f1"), version_type: t };
    assert_eq!(update_line(&info(VersionType::HasLaterInstalled), &rd, 12, false), "LTS 2022.3.1f1   (1970-01-01)");
    assert_eq!(
        update_line(&info(VersionType::LatestInstalled), &rd, 10, true),
        "LTS 2022.3.1f1 (1970-01-01) ✓ Up to date"
    );
    assert_eq!(
        update_line(&info(VersionType::LatestInstalled), &rd, 10, false),
        "LTS 2022.3.1f1 (1970-01-01) + Update(s) available"
    );
    assert_eq!(
        update_line(&info(VersionType::UpdateToLatest(0)), &rd, 10, true),
        "LTS 2022.3.1f1 (1970-01-01) → https://unity.com/releases/editor/whats-new/2022.3.1f1#notes"
    );
    assert_eq!(
        update_line(&info(VersionType::NoReleaseInfo), &rd, 10, true),
        "LTS 2022.3.1f1 (1970-01-01) ? No f update info available"
    );
}
