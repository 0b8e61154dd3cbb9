use ucom::listing::installs_in_range;
use ucom::listing::{format_release_date, latest_release_line};
use ucom::listing::{collect_version_update_info, update_status, UpdateStatus};
use ucom::listing::{align_left, branch_prefix, format_suggested_version, range_connector};
use ucom::releases::install_candidate;
use ucom::command::is_removable_output_dir;
use std::str::FromStr;

use ucom::listing::{
    branch_connector, collect_latest_minor_releases, extract_first_url, find_max_version_length,
    group_versions_by_minor, installed_up_to_date, list_marker, stream_padding, VersionType,
};
use ucom::nonempty::{NonEmptyVec, NonEmptyVecErr, Vec1, Vec1Err};
use ucom::releases::{ReleaseData, ReleaseNotes, ReleaseStream};
use ucom::version::UnityVersion;
use ucom::versions::{
    matching_available_version, matching_versions, sort_versions, VersionList, VersionListError,
};

fn v(s: &str) -> UnityVersion {
    UnityVersion::from_str(s).unwrap()
}

fn release(s: &str) -> ReleaseData {
    ReleaseData {
        version: v(s),
        release_date: 0,
        stream: ReleaseStream::Tech,
        release_notes: ReleaseNotes {
            notes_type: String::new(),
            url: String::new(),
        },
        short_revision: String::new(),
        sku_family: String::new(),
        unity_hub_deep_link: String::new(),
        recommended: false,
    }
}

#[test]
fn non_empty_vec_operations() {
    let mut l = NonEmptyVec::new(1);
    assert_eq!(l.len(), 1);
    assert!(matches!(l.pop(), Err(NonEmptyVecErr::CannotPopLastElement)));
    l.push(2);
    l.extend(vec![3, 4]);
    let mut more = vec![5];
    l.append(&mut more);
    assert!(more.is_empty());
    assert_eq!(*l.first(), 1);
    assert_eq!(*l.last(), 5);
    *l.first_mut() = 10;
    *l.last_mut() = 50;
    assert_eq!(l.pop().ok(), Some(50));
    for x in l.iter_mut().iter_mut() {
        *x += 1;
    }
    assert_eq!(l.into_vec(), vec![11, 3, 4, 5]);
    assert!(matches!(NonEmptyVec::<u8>::from_vec(vec![]), Err(NonEmptyVecErr::VecIsEmpty)));
    assert!(NonEmptyVec::try_from(vec![1]).is_ok());
}

#[test]
fn vec1_operations() {
    let mut l = Vec1::new("a");
    l.push("b");
    assert_eq!(*l.last(), "b");
    assert_eq!(l.pop().ok(), Some("b"));
    assert!(matches!(l.pop(), Err(Vec1Err::CannotPopLastElement)));
    assert!(matches!(Vec1::<u8>::try_from(vec![]), Err(Vec1Err::VecIsEmpty)));
    assert_eq!(l.into_vec(), vec!["a"]);
}

#[test]
fn sorting_and_lists() {
    let sorted = sort_versions(vec![v("2022.3.1f1"), v("2021.3.9f1"), v("2022.3.1b2"), v("2021.3.9f1")]);
    let text: Vec<String> = sorted.iter().map(|x| x.to_string()).collect();
    assert_eq!(text, vec!["2021.3.9f1", "2021.3.9f1", "2022.3.1b2", "2022.3.1f1"]);

    let list = VersionList::from_vec(vec![v("6000.0.1f1"), v("2022.3.5f1"), v("2022.3.10f1")]).ok().unwrap();
    assert_eq!(*list.first(), v("2022.3.5f1"));
    assert_eq!(*list.last(), v("6000.0.1f1"));
    assert_eq!(list.default_version(Some("2022")), v("2022.3.10f1"));
    assert_eq!(list.default_version(Some("1999")), v("6000.0.1f1"));
    assert_eq!(list.default_version(None), v("6000.0.1f1"));
    let pruned = list.prune(Some("2022.3")).ok().unwrap();
    assert_eq!(pruned.into_vec(), vec![v("2022.3.5f1"), v("2022.3.10f1")]);
    assert!(VersionList::from_vec(vec![]).is_err());
}

#[test]
fn prune_without_match_is_an_error() {
    let list = VersionList::try_from(vec![v("2022.3.5f1")]).ok().unwrap();
    assert_eq!(
        list.filter_by_prefix(Some("2019")).err(),
        Some(VersionListError::NoMatch("2019".to_string()))
    );
}

#[test]
fn matching_and_latest() {
    let all = vec![v("2021.3.1f1"), v("2022.1.1f1"), v("2022.1.2f1")];
    assert_eq!(matching_versions(all.clone(), Some("2022")).unwrap().len(), 2);
    assert_eq!(matching_versions(all.clone(), None).unwrap().len(), 3);
    assert!(matching_versions(all.clone(), Some("2030")).is_err());
    assert_eq!(matching_available_version(all.clone(), Some("2022.1")), Ok(v("2022.1.2f1")));
    assert_eq!(matching_available_version(vec![], None), Err(VersionListError::NoVersions));
    assert_eq!(VersionList::latest(all, None), Ok(v("2022.1.2f1")));
}

#[test]
fn groups_by_minor() {
    let installed = vec![v("2022.3.57f1"), v("6000.0.32f1"), v("6000.0.35f1"), v("6000.0.36f1")];
    let groups = group_versions_by_minor(&installed);
    assert_eq!(groups.len(), 2);
    assert_eq!(groups[0].as_slice().len(), 1);
    assert!(matches!(groups[0].first().version_type, VersionType::LatestInstalled));
    assert_eq!(groups[1].as_slice().len(), 3);
    assert!(matches!(groups[1].first().version_type, VersionType::HasLaterInstalled));
    assert!(matches!(groups[1].last().version_type, VersionType::LatestInstalled));
    assert_eq!(find_max_version_length(&groups), 11);
    assert_eq!(find_max_version_length(&[]), 0);
}

#[test]
fn connectors_and_markers() {
    assert_eq!(branch_connector(true, true), "─");
    assert_eq!(branch_connector(true, false), "┬");
    assert_eq!(branch_connector(false, false), "├");
    assert_eq!(branch_connector(false, true), "└");
    assert_eq!(list_marker(true, true), "──");
    assert_eq!(list_marker(false, true), "└─");
    assert_eq!(stream_padding(ReleaseStream::Lts), 2);
    assert_eq!(stream_padding(ReleaseStream::Alpha), 0);
}

#[test]
fn latest_of_each_minor_series() {
    let releases = vec![
        release("2022.1.24f1"),
        release("2022.2.21f1"),
        release("2022.3.56f1"),
        release("2022.3.57f1"),
        release("6000.0.36f1"),
    ];
    let picked = collect_latest_minor_releases(&releases, None);
    assert_eq!(picked, vec![0, 1, 3, 4]);
    let picked = collect_latest_minor_releases(&releases, Some("2022.3"));
    assert_eq!(picked, vec![3]);
}

#[test]
fn up_to_date_installs() {
    assert!(installed_up_to_date(&[v("6000.0.32f1"), v("6000.0.36f1")], v("6000.0.36f1")));
    assert!(installed_up_to_date(&[v("6000.0.37f1")], v("6000.0.36f1")));
    assert!(!installed_up_to_date(&[v("6000.0.35f1")], v("6000.0.36f1")));
    assert!(!installed_up_to_date(&[], v("6000.0.36f1")));
}

#[test]
fn first_url_in_text() {
    assert_eq!(
        extract_first_url("see https://a.b/c?d and http://x.y"),
        Some("http://x.y".to_string())
    );
    assert_eq!(
        extract_first_url("see <https://a.b/c>"),
        Some("https://a.b/c".to_string())
    );
    assert_eq!(extract_first_url("no link"), None);
}

#[test]
fn update_info_of_groups() {
    let installed = vec![v("2022.3.5f1"), v("2022.3.6f1"), v("2023.1.0b1")];
    let releases = vec![release("2022.3.6f1"), release("2022.3.7f1"), release("2022.2.9f1")];
    let groups = collect_version_update_info(&installed, &releases);
    assert_eq!(groups.len(), 2);
    let first = groups[0].as_slice();
    assert_eq!(first.len(), 3);
    assert!(matches!(first[0].version_type, VersionType::HasLaterInstalled));
    assert!(matches!(first[1].version_type, VersionType::LatestInstalled));
    assert!(matches!(first[2].version_type, VersionType::UpdateToLatest(1)));
    assert_eq!(first[2].version, v("2022.3.7f1"));
    assert_eq!(update_status(&first[1].version_type, false), UpdateStatus::UpdatesAvailable);
    assert_eq!(update_status(&first[2].version_type, true), UpdateStatus::UpdateToLatest);
    let second = groups[1].as_slice();
    assert_eq!(second.len(), 1);
    assert!(matches!(second[0].version_type, VersionType::NoReleaseInfo));
    assert_eq!(update_status(&second[0].version_type, true), UpdateStatus::NoReleaseInfo);
    assert_eq!(update_status(&VersionType::LatestInstalled, true), UpdateStatus::UpToDate);
    assert_eq!(update_status(&VersionType::HasLaterInstalled, false), UpdateStatus::Plain);
}

#[test]
fn line_pieces() {
    assert_eq!(align_left("2022.3.1f1", 12), "2022.3.1f1  ");
    assert_eq!(align_left("2022.3.10f1", 5), "2022.3.10f1");
    assert_eq!(branch_prefix("┬", ReleaseStream::Lts), "┬── ");
    assert_eq!(branch_prefix("└", ReleaseStream::Alpha), "└ ");
    assert_eq!(range_connector(None, 2022, Some(2022)), "┬");
    assert_eq!(range_connector(Some(2022), 2022, Some(6000)), "└");
    assert_eq!(range_connector(Some(2021), 2022, None), "─");
    assert_eq!(range_connector(Some(2022), 2022, Some(2022)), "├");
    let releases = vec![release("2022.3.1f1")];
    assert_eq!(
        format_suggested_version(&releases, Some(v("2022.3.1f1"))),
        "(suggested: TECH 2022.3.1f1)"
    );
    assert_eq!(
        format_suggested_version(&releases, Some(v("2022.3.2f1"))),
        "(suggested: OTHER 2022.3.2f1)"
    );
    assert_eq!(format_suggested_version(&releases, None), "");
}

#[test]
fn installing_the_newest_match() {
    let releases = vec![release("2022.3.1f1"), release("2022.3.9f1"), release("2022.3.2f1"), release("2023.1.1f1")];
    assert_eq!(install_candidate(&releases, "2022.3"), Some(1));
    assert_eq!(install_candidate(&releases, "2023"), Some(3));
    assert_eq!(install_candidate(&releases, "2019"), None);
    let twins = vec![release("2022.3.1f1"), release("2022.3.1f1")];
    assert_eq!(install_candidate(&twins, "2022"), Some(1));
}

#[test]
fn removable_build_directories() {
    assert!(is_removable_output_dir("/out/Game_BurstDebugInformation_DoNotShip"));
    assert!(is_removable_output_dir("/out/Game_BackUpThisFolder_ButDontShipItWithYourGame"));
    assert!(!is_removable_output_dir("/out/Game_Data"));
}

#[test]
fn release_dates_and_latest_lines() {
    assert_eq!(format_release_date(1_738_022_400), "2025-01-28");
    assert_eq!(format_release_date(0), "1970-01-01");
    assert_eq!(format_release_date(i64::MAX), "----------");
    let mut rd = release("6000.0.36f1");
    rd.release_date = 1_738_022_400;
    rd.stream = ReleaseStream::Lts;
    assert_eq!(latest_release_line("┬", &rd, 12), "┬── LTS 6000.0.36f1  (2025-01-28)");
}

#[test]
fn installs_in_range_keeps_the_series() {
    let installed = vec![v("2021.3.5f1"), v("2022.3.1f1"), v("2022.3.10f1"), v("2022.2.1f1"), v("6000.0.1f1")];
    assert_eq!(installs_in_range(&installed, v("2022.3.20f1")), vec![v("2022.3.1f1"), v("2022.3.10f1")]);
    assert_eq!(installs_in_range(&installed, v("2023.1.0f1")), Vec::<UnityVersion>::new());
}
