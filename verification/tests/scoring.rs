use openclaw_manager::score::find_local_node_msi;
use openclaw_manager::score::find_local_node_pkg;
use openclaw_manager::score::is_node_msi_candidate;
use openclaw_manager::score::is_node_pkg_candidate;
use openclaw_manager::score::score_node_msi_filename;
use openclaw_manager::score::score_node_pkg_filename;

#[test]
fn picks_x64_msi_over_others() {
    let names = vec![
        "node-v22.11.0-arm64.msi".to_string(),
        "node-v22.11.0-x64.msi".to_string(),
        "not-node.msi".to_string(),
    ];
    let picked = find_local_node_msi(&names).unwrap();
    assert_eq!(names[picked], "node-v22.11.0-x64.msi");
}

#[test]
fn picks_pkg_by_arch() {
    let names = vec![
        "node-v22.11.0-x64.pkg".to_string(),
        "node-v22.11.0-arm64.pkg".to_string(),
    ];
    let picked_arm = find_local_node_pkg(&names, "aarch64").unwrap();
    assert_eq!(names[picked_arm], "node-v22.11.0-arm64.pkg");
    let picked_x64 = find_local_node_pkg(&names, "x86_64").unwrap();
    assert_eq!(names[picked_x64], "node-v22.11.0-x64.pkg");
}

#[test]
fn msi_candidate_requires_prefix_and_extension() {
    assert!(is_node_msi_candidate("node-v22.11.0-x64.msi"));
    assert!(is_node_msi_candidate("NODE-V22.11.0-X64.MSI"));
    assert!(!is_node_msi_candidate("not-node.msi"));
    assert!(!is_node_msi_candidate("node-v22.11.0-x64.pkg"));
}

#[test]
fn pkg_candidate_requires_prefix_and_extension() {
    assert!(is_node_pkg_candidate("node-v22.11.0-arm64.pkg"));
    assert!(!is_node_pkg_candidate("node-v22.11.0-arm64.msi"));
    assert!(!is_node_pkg_candidate("other.pkg"));
}

#[test]
fn msi_score_weighs_architecture_most() {
    // A matching architecture adds 30, a conflicting one subtracts 10;
    // "lts" adds 5 and the "v" marker adds 1.
    assert_eq!(score_node_msi_filename("node-v22.11.0-x64.msi"), 31);
    assert_eq!(score_node_msi_filename("node-v22.11.0-arm64.msi"), -9);
    assert_eq!(score_node_msi_filename("node-lts-x64.msi"), 35);
    assert_eq!(score_node_msi_filename("node-22-x64.msi"), 30);
}

#[test]
fn pkg_score_is_architecture_sensitive() {
    // Matching architecture adds 30, conflicting subtracts 10; "v" adds 1.
    assert_eq!(score_node_pkg_filename("node-v22.11.0-arm64.pkg", "aarch64"), 31);
    assert_eq!(score_node_pkg_filename("node-v22.11.0-x64.pkg", "aarch64"), -9);
    assert_eq!(score_node_pkg_filename("node-v22.11.0-x64.pkg", "x86_64"), 31);
    assert_eq!(score_node_pkg_filename("node-v22.11.0-arm64.pkg", "x86_64"), -9);
}

#[test]
fn no_candidate_yields_none() {
    let names = vec!["readme.txt".to_string(), "not-node.msi".to_string()];
    assert!(find_local_node_msi(&names).is_none());
    assert!(find_local_node_pkg(&names, "x86_64").is_none());
    let empty: Vec<String> = Vec::new();
    assert!(find_local_node_msi(&empty).is_none());
}

#[test]
fn ties_fall_to_greatest_name() {
    let names = vec![
        "node-v22.11.0-x64.msi".to_string(),
        "node-v22.12.0-x64.msi".to_string(),
    ];
    let picked = find_local_node_msi(&names).unwrap();
    assert_eq!(names[picked], "node-v22.12.0-x64.msi");
}
