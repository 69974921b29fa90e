use tendril_core::deps::version_compare::{normalize, opt_version_eq, strip_prefix_and_local, version_eq_normalized};

#[test]
fn strips_v_prefix() {
    assert!(version_eq_normalized("v1.2.3", "1.2.3"));
    assert!(version_eq_normalized("V1.2.3", "1.2.3"));
}

#[test]
fn strips_b_and_n_prefix() {
    assert!(version_eq_normalized("b7.1", "7.1"));
    assert!(version_eq_normalized("n7.1", "b7.1"));
    assert!(version_eq_normalized("n7.1.1", "7.1.1"));
}

#[test]
fn strips_local_metadata() {
    assert!(version_eq_normalized("4.0.1+cpu", "4.0.1"));
    assert!(version_eq_normalized("v1.2.3+build5", "1.2.3"));
}

#[test]
fn normalizes_numeric_segments() {
    assert!(version_eq_normalized("01.02.03", "1.2.3"));
}

#[test]
fn segments_must_match_in_count() {
    assert!(!version_eq_normalized("1.2", "1.2.0"));
    assert!(!version_eq_normalized("1.2.3", "1.2"));
}

#[test]
fn detects_real_difference() {
    assert!(!version_eq_normalized("1.2.3", "1.2.4"));
    assert!(!version_eq_normalized("v1.2.3", "v1.3.3"));
}

#[test]
fn opt_version_eq_handles_none() {
    assert!(!opt_version_eq(None, "1.2.3"));
    assert!(opt_version_eq(Some("v1.2.3"), "1.2.3"));
}

#[test]
fn prefix_and_local_part_are_stripped() {
    assert_eq!(strip_prefix_and_local("v1.2.3+build5"), "1.2.3");
    assert_eq!(strip_prefix_and_local("n7.1"), "7.1");
    assert_eq!(strip_prefix_and_local("2025.01.15"), "2025.01.15");
    assert_eq!(normalize("  b6.1.1 "), "6.1.1");
}

#[test]
fn non_numeric_segments_compare_as_text() {
    assert!(version_eq_normalized("1.2.rc1", "1.2.rc1"));
    assert!(!version_eq_normalized("1.2.rc1", "1.2.rc2"));
    assert!(!version_eq_normalized("1.x", "1.0"));
}

#[test]
fn version_equality_is_symmetric_and_reflexive_on_examples() {
    for (a, b) in [("v1.2.3", "01.2.3"), ("n7.1", "7.2"), ("4.0.1+cpu", "4.0.1")] {
        assert_eq!(version_eq_normalized(a, b), version_eq_normalized(b, a));
        assert!(version_eq_normalized(a, a));
    }
}
