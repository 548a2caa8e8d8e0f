use svg2gcode::Version;

#[test]
fn latest_is_v5() {
    assert_eq!(Version::latest(), Version::V5);
}

#[test]
fn unknown_is_v0() {
    assert_eq!(Version::unknown(), Version::V0);
}

#[test]
fn default_version_is_latest() {
    assert_eq!(Version::default(), Version::latest());
}

#[test]
fn version_to_string_names_known_versions() {
    assert_eq!(Version::V0.to_string(), "V0");
    assert_eq!(Version::V5.to_string(), "V5");
}

#[test]
fn version_to_string_keeps_unknown_text() {
    assert_eq!(Version::Unknown("V9-beta".to_owned()).to_string(), "V9-beta");
    assert_eq!(Version::Unknown(String::new()).to_string(), "");
}

#[test]
fn versions_are_ordered() {
    assert!(Version::V0 < Version::V5);
    assert!(Version::V5 < Version::Unknown("V6".to_owned()));
}

#[test]
fn latest_is_newer_than_v0_and_older_than_unknown() {
    assert!(Version::V0 < Version::latest());
    assert!(Version::latest() < Version::Unknown(String::new()));
    assert!(Version::Unknown("V0".to_owned()) > Version::V5);
}

#[test]
fn unknown_versions_are_ordered_by_text() {
    let a = Version::Unknown("V6".to_owned());
    let b = Version::Unknown("V7".to_owned());
    let longer = Version::Unknown("V6.1".to_owned());
    assert!(a < b);
    assert!(a < longer);
    assert!(longer < b);
    assert_eq!(a.partial_cmp(&a.clone()), Some(std::cmp::Ordering::Equal));
    assert_eq!(b.partial_cmp(&a), Some(std::cmp::Ordering::Greater));
}

#[test]
fn partial_cmp_agrees_with_cmp() {
    let versions = [
        Version::V0,
        Version::V5,
        Version::Unknown(String::new()),
        Version::Unknown("Zeta".to_owned()),
        Version::Unknown("alpha".to_owned()),
        Version::Unknown("é".to_owned()),
    ];
    for x in &versions {
        for y in &versions {
            assert_eq!(x.partial_cmp(y), Some(x.cmp(y)));
        }
    }
}
