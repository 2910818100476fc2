use openclaw_manager::version::check_node_version_requirement;
use openclaw_manager::version::compare_versions;
use openclaw_manager::version::version_key;

#[test]
fn compliance_accepts_major_at_least_22() {
    assert!(check_node_version_requirement(&Some("v22.0.0".to_string())));
    assert!(check_node_version_requirement(&Some("v22.11.0".to_string())));
    assert!(check_node_version_requirement(&Some("23.1.2".to_string())));
    assert!(check_node_version_requirement(&Some("node-v100.0.0".to_string())));
}

#[test]
fn compliance_rejects_low_or_absent_versions() {
    assert!(!check_node_version_requirement(&Some("v21.9.9".to_string())));
    assert!(!check_node_version_requirement(&Some("v0.1.0".to_string())));
    assert!(!check_node_version_requirement(&None));
    assert!(!check_node_version_requirement(&Some("".to_string())));
}

#[test]
fn update_available_on_newer_patch() {
    assert!(compare_versions("1.0.0", "1.0.1"));
}

#[test]
fn marker_prefix_is_ignored() {
    assert!(!compare_versions("v2.0.0", "1.9.9"));
    assert!(compare_versions("v1.9.9", "v2.0.0"));
}

#[test]
fn missing_component_compares_as_zero() {
    assert!(!compare_versions("1.2", "1.2.0"));
    assert!(!compare_versions("1.2.0", "1.2"));
    assert!(compare_versions("1.2", "1.2.1"));
}

#[test]
fn equal_versions_mean_no_update() {
    assert!(!compare_versions("3.4.5", "3.4.5"));
    assert!(!compare_versions("v3.4.5", "3.4.5"));
}

#[test]
fn comparison_is_asymmetric() {
    assert!(compare_versions("1.0.0", "2.0.0"));
    assert!(!compare_versions("2.0.0", "1.0.0"));
}

#[test]
fn pre_release_text_is_ignored() {
    let (major, minor, patch) = version_key("v22.11.0-rc1");
    assert_eq!((major, minor, patch), (22, 11, 0));
}

#[test]
fn key_reads_up_to_three_components() {
    assert_eq!(version_key("10"), (10, 0, 0));
    assert_eq!(version_key("1.2.3.4"), (1, 2, 3));
    assert_eq!(version_key(""), (0, 0, 0));
    assert_eq!(version_key("  v7.8  "), (7, 8, 0));
}

#[test]
fn oversized_components_saturate() {
    let (major, _, _) = version_key("99999999999999999999999999.0.0");
    assert_eq!(major, u64::MAX);
}
