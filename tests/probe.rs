use pyprovision::probe::{
    candidate_aliases, find_py_aliases, parse_selection, parse_version_report, prompt_header,
    prompt_lines,
};
use pyprovision::version::Version;

#[test]
fn candidates_in_preference_order() {
    let c = candidate_aliases();
    assert_eq!(c.len(), 13);
    assert_eq!(c[0], "python3.10");
    assert_eq!(c[10], "python3");
    assert_eq!(c[11], "python");
    assert_eq!(c[12], "python2");
}

#[test]
fn version_reports() {
    assert_eq!(parse_version_report(b"Python 3.6.9\n"), Some(Version::new(3, 6, 9)));
    assert_eq!(parse_version_report(b"Python 3.10.12"), Some(Version::new(3, 10, 12)));
    assert_eq!(parse_version_report(b"Python 3.8.0rc1\n"), Some(Version::new(3, 8, 0)));
    assert_eq!(parse_version_report(b"Python 2.7.18\r\n"), Some(Version::new(2, 7, 18)));
    assert_eq!(parse_version_report(b""), None);
    assert_eq!(parse_version_report(b"Python 3.6"), None);
    assert_eq!(parse_version_report(b"Python 3..9"), None);
    assert_eq!(parse_version_report(b"python 3.6.9"), None);
    assert_eq!(parse_version_report(b"Python 3.6.x"), None);
    assert_eq!(parse_version_report(b"Python 4294967296.1.1"), None);
    assert_eq!(
        parse_version_report(b"Python 4294967295.0.1"),
        Some(Version::new(4294967295, 0, 1))
    );
}

#[test]
fn aliases_of_other_versions_are_dropped() {
    let probes = vec![
        ("python3.7".to_string(), Some(Version::new(3, 7, 3))),
        ("python3.6".to_string(), Some(Version::new(3, 6, 9))),
        ("python3".to_string(), None),
        ("python".to_string(), Some(Version::new(3, 6, 1))),
        ("python2".to_string(), Some(Version::new(2, 6, 1))),
    ];
    let m = find_py_aliases(&Version::new(3, 6, 0), &probes);
    assert_eq!(
        m,
        vec![
            ("python3.6".to_string(), Version::new(3, 6, 9)),
            ("python".to_string(), Version::new(3, 6, 1)),
        ]
    );
    assert!(find_py_aliases(&Version::new(3, 5, 0), &probes).is_empty());
}

#[test]
fn selections() {
    assert_eq!(parse_selection("2\n", 2).unwrap(), 1);
    assert_eq!(parse_selection("1", 3).unwrap(), 0);
    assert_eq!(parse_selection("12\n", 3).unwrap(), 0);
    assert_eq!(
        parse_selection("", 2).unwrap_err().details,
        "Problem reading input"
    );
    assert_eq!(
        parse_selection("x\n", 2).unwrap_err().description(),
        "Enter the number associated with the Python alias."
    );
    assert_eq!(
        parse_selection("3\n", 2).unwrap_err().details,
        "Can't find the Python alias associated with that number. Is it in the list above?"
    );
    assert!(parse_selection("0\n", 2).is_err());
}

#[test]
fn prompt_listing() {
    let aliases = vec![
        ("python3.6".to_string(), Version::new(3, 6, 9)),
        ("python3".to_string(), Version::new(3, 6, 1)),
    ];
    assert_eq!(
        prompt_lines(&aliases),
        vec!["1: python3.6 version: 3.6.9".to_string(), "2: python3 version: 3.6.1".to_string()]
    );
    assert!(prompt_header().starts_with("Found multiple compatible Python aliases."));
}
