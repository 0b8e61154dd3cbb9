use ucom::version::{BuildType, ParseError, UnityVersion};

#[test]
fn test_version_from_string_f() {
    let v = "2021.2.14f1".parse::<UnityVersion>().unwrap();
    assert_eq!(v.major, 2021);
    assert_eq!(v.minor, 2);
    assert_eq!(v.patch, 14);
    assert_eq!(v.build_type, BuildType::Final);
    assert_eq!(v.build, 1);
}

#[test]
fn test_version_from_string_b() {
    let v = "2021.1.1b3".parse::<UnityVersion>().unwrap();
    assert_eq!(v.major, 2021);
    assert_eq!(v.minor, 1);
    assert_eq!(v.patch, 1);
    assert_eq!(v.build_type, BuildType::Beta);
    assert_eq!(v.build, 3);
}

#[test]
fn test_version_from_string_a() {
    let v = "2021.1.1a3".parse::<UnityVersion>().unwrap();
    assert_eq!(v.major, 2021);
    assert_eq!(v.minor, 1);
    assert_eq!(v.patch, 1);
    assert_eq!(v.build_type, BuildType::Alpha);
    assert_eq!(v.build, 3);
}

#[test]
fn test_version_from_string_rc() {
    let v = "2021.1.1rc1".parse::<UnityVersion>().unwrap();
    assert_eq!(v.major, 2021);
    assert_eq!(v.minor, 1);
    assert_eq!(v.patch, 1);
    assert_eq!(v.build_type, BuildType::ReleaseCandidate);
    assert_eq!(v.build, 1);
}

#[test]
fn test_version_from_string_invalid_build_type() {
    assert_eq!("2021.1.1x1".parse::<UnityVersion>(), Err(ParseError));
}

#[test]
fn test_version_from_string_invalid() {
    assert_eq!("2021.1.1".parse::<UnityVersion>(), Err(ParseError));
}

#[test]
fn test_version_to_string() {
    assert_eq!(
        "2021.2.14f1".parse::<UnityVersion>().unwrap().to_string(),
        "2021.2.14f1"
    );

    assert_eq!(
        "2019.1.1b1".parse::<UnityVersion>().unwrap().to_string(),
        "2019.1.1b1"
    );

    assert_eq!(
        "2020.1.1a3".parse::<UnityVersion>().unwrap().to_string(),
        "2020.1.1a3"
    );

    assert_eq!(
        "2022.2.1rc2".parse::<UnityVersion>().unwrap().to_string(),
        "2022.2.1rc2"
    );
}

#[test]
fn test_len() {
    assert_eq!(
        "5.102.5f123".parse::<UnityVersion>().unwrap().len(),
        "5.102.5f123".len()
    );

    assert_eq!(
        "2021.2.14f1".parse::<UnityVersion>().unwrap().len(),
        "2021.2.14f1".len()
    );

    assert_eq!(
        "2019.1.1b1".parse::<UnityVersion>().unwrap().len(),
        "2019.1.1b1".len()
    );

    assert_eq!(
        "2020.1.1a3".parse::<UnityVersion>().unwrap().len(),
        "2020.1.1a3".len()
    );

    assert_eq!(
        "2022.2.1rc2".parse::<UnityVersion>().unwrap().len(),
        "2022.2.1rc2".len()
    );
}

#[test]
fn parse_ignores_a_fourth_piece() {
    let v = UnityVersion::parse("2021.3.9f1.extra").unwrap();
    assert_eq!(v.to_string(), "2021.3.9f1");
}

#[test]
fn parse_refuses_numbers_out_of_range() {
    assert_eq!(UnityVersion::parse("70000.1.1f1"), Err(ParseError));
    assert_eq!(UnityVersion::parse("2021.256.1f1"), Err(ParseError));
    assert_eq!(UnityVersion::parse("2021.1.1f256"), Err(ParseError));
    assert_eq!(UnityVersion::parse("2021.1.f1"), Err(ParseError));
    assert_eq!(UnityVersion::parse(""), Err(ParseError));
}

#[test]
fn parse_accepts_plus_sign_like_std() {
    let v = UnityVersion::parse("+2021.1.1f1").unwrap();
    assert_eq!(v.major, 2021);
}

#[test]
fn build_type_names() {
    assert_eq!(BuildType::ReleaseCandidate.as_short_str(), "rc");
    assert_eq!(BuildType::Final.as_full_str(), "Final");
    assert_eq!(BuildType::Alpha.as_str(), "a");
    assert_eq!(BuildType::from("14f1"), Some(BuildType::Final));
    assert_eq!(BuildType::from("1rc1"), Some(BuildType::ReleaseCandidate));
    assert_eq!(BuildType::from("11"), None);
    assert_eq!(BuildType::find_in("2021.1.1b2"), Some(BuildType::Beta));
    assert!(BuildType::from_short_str("rc").is_ok());
    assert!(BuildType::from_short_str("x").is_err());
}

#[test]
fn minor_partial_and_order() {
    let v = UnityVersion::parse("2022.3.5f1").unwrap();
    assert_eq!(v.minor_partial(), "2022.3");
    let b = UnityVersion::parse("2022.3.5b9").unwrap();
    assert!(b.is_older_than(&v));
    assert!(!v.is_older_than(&b));
    assert!(!v.is_older_than(&v));
    assert!(v.same_minor(&b));
}

#[test]
fn roundtrip_of_extreme_version() {
    let v = UnityVersion {
        major: 65535,
        minor: 255,
        patch: 0,
        build_type: BuildType::Alpha,
        build: 255,
    };
    let s = v.to_string();
    assert_eq!(s, "65535.255.0a255");
    assert_eq!(UnityVersion::parse(&s), Ok(v));
    assert_eq!(v.len(), s.len());
}
