use pyprovision::catalog::{
    artifact_name, download_url, extracted_folder_name, final_folder_name, install_folder_name,
    ConfigError, Os, PyVers,
};
use pyprovision::version::{dec_string, Version};

#[test]
fn hosted_minor_versions_match_their_build() {
    for (minor, patch) in [(4u32, 10u32), (5, 6), (6, 9), (7, 4)] {
        let b = PyVers::from_version(Version::new(3, minor, 0)).unwrap();
        assert_eq!(b.to_vers(), Version::new(3, minor, patch));
        // the same request gives the same build
        assert_eq!(PyVers::from_version(Version::new(3, minor, 99)).unwrap(), b);
    }
}

#[test]
fn unsupported_requests_are_configuration_errors() {
    assert_eq!(PyVers::from_version(Version::new(3, 8, 0)), Err(ConfigError::UnsupportedMinor));
    assert_eq!(PyVers::from_version(Version::new(3, 3, 0)), Err(ConfigError::UnsupportedMinor));
    assert_eq!(PyVers::from_version(Version::new(2, 7, 18)), Err(ConfigError::UnsupportedMajor));
    assert_eq!(
        ConfigError::UnsupportedMajor.message(),
        "Unsupported python version requested; only Python 3 is supported"
    );
    assert_eq!(
        ConfigError::UnsupportedMinor.message(),
        "Unsupported python version requested; only Python >=3.4 is supported"
    );
}

#[test]
fn version_text() {
    assert_eq!(dec_string(0), "0");
    assert_eq!(dec_string(10), "10");
    assert_eq!(dec_string(4294967295), "4294967295");
    assert_eq!(Version::new(3, 4, 10).to_string(), "3.4.10");
    assert_eq!(Version::new(3, 7, 4).series_string(), "3.7");
    assert_eq!(PyVers::V3_6_9.to_string(), "3.6.9");
    assert!(Version::new(3, 6, 1).matches(&Version::new(3, 6, 9)));
    assert!(!Version::new(3, 6, 1).matches(&Version::new(3, 7, 1)));
}

#[test]
fn artifact_names() {
    assert_eq!(artifact_name(PyVers::V3_7_4, Os::Ubuntu), "python-3.7.4-ubuntu.tar.xz");
    assert_eq!(artifact_name(PyVers::V3_4_10, Os::Windows), "python-3.4.10-windows.tar.xz");
    assert_eq!(extracted_folder_name(PyVers::V3_5_6, Os::Mac), "python-3.5.6-mac");
    assert_eq!(final_folder_name(PyVers::V3_7_4), "python-3.7.4");
    assert_eq!(install_folder_name(&Version::new(3, 6, 9)), "python-3.6.9");
    assert_eq!(
        download_url(PyVers::V3_7_4, Os::Ubuntu),
        "https://github.com/David-OConnor/pybin/releases/download/3.7.4/python-3.7.4-ubuntu.tar.xz"
    );
    assert_eq!(Os::Mac.interpreter_name(), "python3");
    assert_eq!(Os::Windows.interpreter_name(), "python");
}

#[test]
fn versions_order_lexicographically() {
    assert!(Version::new(3, 6, 9) < Version::new(3, 7, 0));
    assert!(Version::new(2, 9, 9) < Version::new(3, 0, 0));
    assert!(Version::new(3, 7, 4) > Version::new(3, 7, 3));
}
