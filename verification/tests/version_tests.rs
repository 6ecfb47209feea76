use tcc_launcher::version::{is_newer, version_tuple};

#[test]
fn plain_triple() {
    assert_eq!(version_tuple("1.2.3"), (1, 2, 3));
}

#[test]
fn leading_v_and_whitespace() {
    assert_eq!(version_tuple("v1.2.3"), (1, 2, 3));
    assert_eq!(version_tuple("  v2.0.1 \n"), (2, 0, 1));
    assert_eq!(version_tuple("vv3.4.5"), (3, 4, 5));
    assert_eq!(version_tuple("\u{3000}1.0"), (1, 0, 0));
}

#[test]
fn suffixes_are_ignored() {
    assert_eq!(version_tuple("2.0.1-beta.7"), (2, 0, 1));
    assert_eq!(version_tuple("2.0.1+build.9"), (2, 0, 1));
    assert_eq!(version_tuple("+7.1"), (0, 0, 0));
}

#[test]
fn missing_and_bad_fields_count_as_zero() {
    assert_eq!(version_tuple("1.2"), (1, 2, 0));
    assert_eq!(version_tuple(""), (0, 0, 0));
    assert_eq!(version_tuple("   "), (0, 0, 0));
    assert_eq!(version_tuple("1.x.3"), (1, 0, 3));
    assert_eq!(version_tuple("1..3"), (1, 0, 3));
    assert_eq!(version_tuple(" 1. 2"), (1, 0, 0));
    assert_eq!(version_tuple("1.2.3.4"), (1, 2, 3));
    assert_eq!(version_tuple("v"), (0, 0, 0));
}

#[test]
fn numbers_up_to_u64_max() {
    assert_eq!(version_tuple("18446744073709551615"), (u64::MAX, 0, 0));
    assert_eq!(version_tuple("18446744073709551616.1.1"), (0, 1, 1));
    assert_eq!(version_tuple("007.08.0009"), (7, 8, 9));
}

#[test]
fn newer_is_lexicographic() {
    assert!(is_newer("1.2.4", "1.2.3"));
    assert!(is_newer("v2.0.0", "1.9.9"));
    assert!(is_newer("1.10.0", "1.9.0"));
    assert!(!is_newer("1.9.0", "1.10.0"));
    assert!(!is_newer("1.2.3", "1.2.3"));
    assert!(!is_newer("1.2.3-beta", "1.2.3"));
    assert!(!is_newer("garbage", "0.0.0"));
}

#[test]
fn newer_is_a_strict_order() {
    let vs = ["0.9.9", "1.0.0", "v1.0.0", "1.0.1", "1.1", "2"];
    for a in vs {
        assert!(!is_newer(a, a));
        for b in vs {
            assert!(!(is_newer(a, b) && is_newer(b, a)));
            for c in vs {
                if is_newer(a, b) && is_newer(b, c) {
                    assert!(is_newer(a, c));
                }
            }
        }
    }
}

#[test]
fn v_prefix_law_example() {
    for s in ["1.2.3", "4", "", "0.0.7-rc1"] {
        assert_eq!(version_tuple(&format!("v{}", s)), version_tuple(s));
    }
}

#[test]
fn suffix_law_example() {
    assert_eq!(version_tuple("3.1.4-anything goes 9.9.9"), version_tuple("3.1.4"));
    assert_eq!(version_tuple("3.1+x"), version_tuple("3.1"));
}
