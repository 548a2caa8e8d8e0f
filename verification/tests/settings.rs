use svg2gcode::{MachineConfig, PostprocessConfig, Settings, SupportedFunctionality, Version};

fn settings_at(version: Version, end_sequence: Option<&str>) -> Settings<u32> {
    Settings {
        conversion: 7,
        machine: MachineConfig {
            supported_functionality: SupportedFunctionality { circular_interpolation: true },
            tool_on_sequence: Some("M4".to_owned()),
            tool_off_sequence: Some("M5".to_owned()),
            begin_sequence: Some("G90 G21".to_owned()),
            end_sequence: end_sequence.map(|s| s.to_owned()),
        },
        postprocess: PostprocessConfig {
            checksums: true,
            line_numbers: false,
            newline_before_comment: true,
        },
        version,
    }
}

#[test]
fn upgrade_v0_without_end_sequence_appends_m2() {
    let mut s = settings_at(Version::V0, None);
    assert_eq!(s.try_upgrade(), Ok(()));
    assert_eq!(s.version, Version::V5);
    assert_eq!(s.machine.end_sequence.as_deref(), Some(" M2"));
}

#[test]
fn upgrade_v0_with_end_sequence_appends_m2() {
    let mut s = settings_at(Version::V0, Some("M5"));
    assert_eq!(s.try_upgrade(), Ok(()));
    assert_eq!(s.version, Version::latest());
    assert_eq!(s.machine.end_sequence.as_deref(), Some("M5 M2"));
}

#[test]
fn upgrade_v0_keeps_other_fields() {
    let mut s = settings_at(Version::V0, Some("M5"));
    s.try_upgrade().unwrap();
    let mut expected = settings_at(Version::V5, Some("M5 M2"));
    expected.conversion = 7;
    assert_eq!(s, expected);
}

#[test]
fn upgrade_v5_changes_nothing() {
    let mut s = settings_at(Version::V5, Some("M5"));
    assert_eq!(s.try_upgrade(), Ok(()));
    assert_eq!(s, settings_at(Version::V5, Some("M5")));
}

#[test]
fn upgrade_unknown_fails_and_changes_nothing() {
    let mut s = settings_at(Version::Unknown("V42".to_owned()), Some("M5"));
    assert_eq!(s.try_upgrade(), Err("cannot upgrade unknown version"));
    assert_eq!(s, settings_at(Version::Unknown("V42".to_owned()), Some("M5")));
}

#[test]
fn upgrade_twice_appends_m2_once() {
    let mut s = settings_at(Version::V0, Some("M5"));
    s.try_upgrade().unwrap();
    let once = s.clone();
    assert_eq!(s.try_upgrade(), Ok(()));
    assert_eq!(s, once);
    assert_eq!(s.machine.end_sequence.as_deref(), Some("M5 M2"));
}

#[test]
fn default_settings_are_latest_and_need_no_upgrade() {
    let mut s: Settings<u32> = Settings::default();
    assert_eq!(s.version, Version::latest());
    assert_eq!(s.machine.end_sequence, None);
    assert_eq!(s.try_upgrade(), Ok(()));
    assert_eq!(s, Settings::<u32>::default());
}

#[test]
fn default_components() {
    let s: Settings<u32> = Settings::default();
    assert_eq!(s.conversion, 0);
    assert!(!s.machine.supported_functionality.circular_interpolation);
    assert_eq!(s.machine.tool_on_sequence, None);
    assert_eq!(s.machine.tool_off_sequence, None);
    assert_eq!(s.machine.begin_sequence, None);
    assert_eq!(s.postprocess, PostprocessConfig::default());
    assert!(!s.postprocess.checksums && !s.postprocess.line_numbers);
    assert!(!s.postprocess.newline_before_comment);
}

#[test]
fn settings_without_version_are_upgraded_from_v0() {
    // Stored settings that carry no version are read as `Version::unknown()`.
    let mut s = settings_at(Version::unknown(), Some("M5 M30"));
    assert_eq!(s.try_upgrade(), Ok(()));
    assert_eq!(s.machine.end_sequence.as_deref(), Some("M5 M30 M2"));
}
