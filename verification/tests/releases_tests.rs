use std::str::FromStr;

use ucom::releases::{
    find_available_updates, merge_page, page_limit, release_notes_url, FetchProgress,
    ReleaseCollection, ReleaseData, ReleaseNotes, ReleaseStream, SortedReleaseCollection,
    UpdatesError,
};
use ucom::version::UnityVersion;

type Version = UnityVersion;

fn release(v: &str, recommended: bool) -> ReleaseData {
    ReleaseData {
        version: Version::from_str(v).unwrap(),
        release_date: 1_700_000_000,
        stream: ReleaseStream::Lts,
        release_notes: ReleaseNotes {
            notes_type: "MD".to_string(),
            url: String::new(),
        },
        short_revision: String::new(),
        sku_family: String::new(),
        unity_hub_deep_link: String::new(),
        recommended,
    }
}

#[test]
fn test_release_notes_url() {
    let version = Version::from_str("2021.2.14f1").unwrap();
    let url = release_notes_url(version);
    assert_eq!(
        url.as_ref(),
        "https://unity.com/releases/editor/whats-new/2021.2.14f1#notes"
    );
}

#[test]
fn test_release_notes_url_5_1_0_1() {
    let version = Version::from_str("5.1.0f1").unwrap();
    let url = release_notes_url(version);
    assert_eq!(
        url.as_ref(),
        "https://unity.com/releases/editor/whats-new/5.1.0f1#notes"
    );
}

#[test]
fn test_release_notes_url_5_1_0_2() {
    let version = Version::from_str("5.1.0f2").unwrap();
    let url = release_notes_url(version);
    assert_eq!(
        url.as_ref(),
        "https://unity.com/releases/editor/whats-new/5.1.0f2#notes"
    );
}

#[test]
fn test_release_notes_url_5_1_0_3() {
    let version = Version::from_str("5.1.0f3").unwrap();
    let url = release_notes_url(version);
    assert_eq!(
        url.as_ref(),
        "https://unity.com/releases/editor/whats-new/5.1.0f3#notes"
    );
}

#[test]
fn release_notes_url_of_alpha_beta_and_rc() {
    let a = release_notes_url(Version::from_str("6000.2.0a1").unwrap());
    assert_eq!(a.as_ref(), "https://unity.com/releases/editor/alpha/6000.2.0a1#notes");
    let b = release_notes_url(Version::from_str("6000.1.0b4").unwrap());
    assert_eq!(b.as_ref(), "https://unity.com/releases/editor/beta/6000.1.0b4#notes");
    let rc = release_notes_url(Version::from_str("2022.2.1rc2").unwrap());
    assert_eq!(rc.as_ref(), "https://unity.com/releases/editor/whats-new/2022.2.1rc2#notes");
}

#[test]
fn stream_names() {
    assert_eq!(ReleaseStream::Supp.as_str(), "SUPP");
    assert_eq!(ReleaseStream::from_name("SUPPORTED"), ReleaseStream::Supp);
    assert_eq!(ReleaseStream::from_name("LTS"), ReleaseStream::Lts);
    assert_eq!(ReleaseStream::from_name("whatever"), ReleaseStream::Other);
}

#[test]
fn collection_lookups() {
    let c = ReleaseCollection::from_releases(
        0,
        None,
        vec![release("2022.3.1f1", false), release("2022.3.2f1", false)],
    );
    let v = Version::from_str("2022.3.2f1").unwrap();
    assert!(c.has_version(v));
    assert_eq!(c.find_by_version(v).unwrap().version, v);
    assert_eq!(c.get_by_version(v).version, v);
    assert!(!c.has_version(Version::from_str("2022.3.3f1").unwrap()));
    assert!(c.find_by_version(Version::from_str("2022.3.3f1").unwrap()).is_none());
    assert!(!c.is_empty());
    assert!(ReleaseCollection::new(5).is_empty());
}

#[test]
fn sorted_collection_orders_by_version() {
    let c = ReleaseCollection::from_releases(
        7,
        None,
        vec![
            release("2022.3.2f1", false),
            release("2021.3.1f1", false),
            release("2022.3.1f1", false),
            release("2022.3.1b1", false),
        ],
    );
    let sorted = SortedReleaseCollection::new(c);
    let versions: Vec<String> = sorted.iter().iter().map(|r| r.version.to_string()).collect();
    assert_eq!(versions, vec!["2021.3.1f1", "2022.3.1b1", "2022.3.1f1", "2022.3.2f1"]);
    assert_eq!(sorted.last_updated(), 7);
    let kept = sorted.retain_with_prefix("2022.3.1");
    assert_eq!(kept.iter().len(), 2);
}

#[test]
fn updates_of_a_version() {
    let c = ReleaseCollection::from_releases(
        1_700_000_500,
        Some(Version::from_str("6000.0.1f1").unwrap()),
        vec![
            release("2022.3.3f1", false),
            release("2022.3.1f1", false),
            release("2022.2.9f1", false),
            release("2022.3.2f1", false),
            release("2022.3.0f1", false),
        ],
    );
    let sorted = SortedReleaseCollection::new(c);
    let v = Version::from_str("2022.3.1f1").unwrap();
    let updates = find_available_updates(v, sorted).ok().unwrap();
    assert_eq!(updates.current_release.version, v);
    let newer: Vec<String> = updates
        .newer_releases
        .iter()
        .iter()
        .map(|r| r.version.to_string())
        .collect();
    assert_eq!(newer, vec!["2022.3.2f1", "2022.3.3f1"]);
    assert_eq!(updates.newer_releases.last_updated(), 1_700_000_500);
    assert_eq!(updates.newer_releases.suggested_version(), Some(Version::from_str("6000.0.1f1").unwrap()));
}

#[test]
fn updates_of_an_unknown_version() {
    let c = ReleaseCollection::from_releases(0, None, vec![release("2022.3.3f1", false)]);
    let v = Version::from_str("2022.3.1f1").unwrap();
    match find_available_updates(v, SortedReleaseCollection::new(c)) {
        Err(e) => assert_eq!(e, UpdatesError::VersionNotFound(v)),
        Ok(_) => panic!("expected an error"),
    }
}

#[test]
fn merging_pages() {
    let mut c = ReleaseCollection::from_releases(0, None, vec![release("2022.3.1f1", false)]);
    let added = merge_page(
        &mut c,
        vec![release("2022.3.2f1", true), release("2022.3.1f1", false)],
        false,
    );
    assert_eq!(added, 1);
    assert_eq!(c.suggested_version, Some(Version::from_str("2022.3.2f1").unwrap()));
    let added_all = merge_page(&mut c, vec![release("2022.3.1f1", false)], true);
    assert_eq!(added_all, 1);
    assert_eq!(c.iter().len(), 3);
    assert_eq!(page_limit(true), 25);
    assert_eq!(page_limit(false), 5);
}

#[test]
fn fetch_progress_stops_at_a_page_without_news() {
    let mut c = ReleaseCollection::from_releases(0, None, vec![release("2022.3.1f1", false)]);
    let mut p = FetchProgress::start(&c);
    assert!(!p.fetch_all);
    assert_eq!(p.next_request(), Some((5, 0)));
    p.receive(&mut c, 40, vec![release("2022.3.2f1", false)]);
    assert_eq!(p.fetched, 1);
    assert_eq!(p.next_request(), Some((5, 5)));
    p.receive(&mut c, 40, vec![release("2022.3.2f1", false)]);
    assert!(p.done);
    assert_eq!(p.next_request(), None);
}

#[test]
fn fetch_progress_from_empty_fetches_all() {
    let mut c = ReleaseCollection::new(0);
    let mut p = FetchProgress::start(&c);
    assert!(p.fetch_all);
    assert_eq!(p.next_request(), Some((25, 0)));
    p.receive(&mut c, 1, vec![release("2022.3.2f1", false)]);
    assert_eq!(p.next_request(), None);
    let mut q = FetchProgress::start(&c);
    q.receive(&mut c, 10, vec![]);
    assert!(q.done);
}
