use vagga_core::version::{Component, MinimumVagga, Version};

#[test]
fn test_version_parse() {
    assert_eq!(
        Version("v0.4.1-28-gfba00d7").iter().rest(),
        [
            Component::Numeric(0),
            Component::Numeric(4),
            Component::Numeric(1),
            Component::Numeric(28),
            Component::String("gfba00d7"),
        ]
    );
}

#[test]
fn test_version_cmp() {
    assert!(Version("v0.4.1-28-gfba00d7") > Version("v0.4.1"));
    assert!(Version("v0.4.1-28-gfba00d7") > Version("v0.4.1-27-gtest"));
    assert!(Version("v0.4.1-28-gfba00d7") < Version("v0.4.2"));
}

#[test]
fn test_version_cmp2() {
    assert!(!(Version("v0.4.1-172-ge011471") < Version("v0.4.1-172-ge011471")));
}

#[test]
fn version_equal_to_itself() {
    assert!(Version("v1.2.3") == Version("v1.2.3"));
    assert!(!(Version("v1.2.3") < Version("v1.2.3")));
    assert!(!(Version("v1.2.3") > Version("v1.2.3")));
}

#[test]
fn version_prerelease_words_sort_below() {
    assert!(Version("v1.0-rc") < Version("v1.0"));
    assert!(Version("v1.0-rc1") > Version("v1.0"));
    assert!(Version("v1.0-dev") < Version("v1.0"));
    assert!(Version("v1.0.1") > Version("v1.0"));
    assert!(Version("v1.0-beta") > Version("v1.0"));
}

#[test]
fn version_git_word_clash_is_below_both_ways() {
    assert!(Version("1.0") < Version("1.0.gabc"));
    assert!(Version("1.0.gabc") < Version("1.0"));
}

#[test]
fn version_numbers_too_big_are_words() {
    assert_eq!(
        Version("99999999999999999999").iter().rest(),
        [Component::String("99999999999999999999")]
    );
}

#[test]
fn minimum_vagga_accepts_older_requirement() {
    let m = MinimumVagga::new().current_version("0.8.1".to_string());
    assert!(m.check("0.8.0").is_ok());
    assert!(m.check("0.8.1").is_ok());
}

#[test]
fn minimum_vagga_rejects_newer_requirement() {
    let m = MinimumVagga::new().current_version("0.8.1".to_string());
    let e = m.check("0.9.0").unwrap_err();
    assert_eq!(e.reason(), "Please upgrade vagga to at least \"0.9.0\"");
    assert_eq!(e.message(), "Minimum Vagga Error: Please upgrade vagga to at least \"0.9.0\"");
}

#[test]
fn minimum_vagga_without_current_version_accepts_all() {
    let m = MinimumVagga::new().optional();
    assert!(m.accepts_missing());
    assert!(m.check("100.0").is_ok());
    assert!(!MinimumVagga::new().accepts_missing());
}
