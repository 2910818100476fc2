use openclaw_manager::detect::accept_version_output;
use openclaw_manager::detect::check_environment;
use openclaw_manager::detect::get_node_version;
use openclaw_manager::detect::get_openclaw_version;
use openclaw_manager::probe::parse_nvm_settings_current;
use openclaw_manager::probe::resolve_node_executable;
use openclaw_manager::probe::tool_dir_candidates;
use openclaw_manager::probe::unix_node_paths;
use openclaw_manager::probe::windows_node_paths;

#[test]
fn ready_requires_all_three() {
    let st = check_environment(
        Some("v22.1.0".to_string()),
        Some("1.0.0".to_string()),
        true,
        "linux".to_string(),
    );
    assert!(st.node_installed && st.node_version_ok && st.openclaw_installed);
    assert!(st.ready);

    let no_node = check_environment(None, Some("1.0.0".to_string()), true, "linux".to_string());
    assert!(!no_node.ready);

    let old_node = check_environment(
        Some("v21.0.0".to_string()),
        Some("1.0.0".to_string()),
        true,
        "linux".to_string(),
    );
    assert!(old_node.node_installed && !old_node.node_version_ok);
    assert!(!old_node.ready);

    let no_app = check_environment(Some("v22.1.0".to_string()), None, true, "linux".to_string());
    assert!(!no_app.ready);
}

#[test]
fn config_dir_flag_does_not_gate_readiness() {
    let st = check_environment(
        Some("v22.1.0".to_string()),
        Some("1.0.0".to_string()),
        false,
        "macos".to_string(),
    );
    assert!(st.ready);
    assert!(!st.config_dir_exists);
}

#[test]
fn version_output_must_be_version_shaped() {
    assert_eq!(accept_version_output(&Some(" v22.1.0\n".to_string())), Some("v22.1.0".to_string()));
    assert_eq!(accept_version_output(&Some("command not found".to_string())), None);
    assert_eq!(accept_version_output(&Some("   ".to_string())), None);
    assert_eq!(accept_version_output(&None), None);
}

#[test]
fn first_well_formed_probe_wins() {
    let probed = vec![
        None,
        Some("garbage".to_string()),
        Some("v22.11.0\n".to_string()),
        Some("v23.0.0".to_string()),
    ];
    assert_eq!(get_node_version(&None, &probed, &None), Some("v22.11.0".to_string()));
}

#[test]
fn direct_invocation_wins_over_probes() {
    let probed = vec![Some("v23.0.0".to_string())];
    let direct = Some("v22.1.0".to_string());
    assert_eq!(get_node_version(&direct, &probed, &None), Some("v22.1.0".to_string()));
}

#[test]
fn shell_fallback_is_last() {
    let probed = vec![None, Some("nope".to_string())];
    let fallback = Some("v22.2.0\n".to_string());
    assert_eq!(get_node_version(&None, &probed, &fallback), Some("v22.2.0".to_string()));
    assert_eq!(get_node_version(&None, &probed, &None), None);
}

#[test]
fn openclaw_version_is_trimmed_output() {
    assert_eq!(get_openclaw_version(&Some(" 1.2.3\n".to_string())), Some("1.2.3".to_string()));
    assert_eq!(get_openclaw_version(&None), None);
}

#[test]
fn unix_paths_put_default_alias_first() {
    let home = Some("/home/u".to_string());
    let paths = unix_node_paths(&home, &Some("22.11.0\n".to_string()));
    assert_eq!(paths[0], "/home/u/.nvm/versions/node/v22.11.0/bin/node");
    assert_eq!(paths[1], "/opt/homebrew/bin/node");
    assert_eq!(paths.len(), 14);
    assert_eq!(paths[13], "/home/u/.local/share/mise/shims/node");
}

#[test]
fn unix_paths_without_home_are_the_fixed_three() {
    let paths = unix_node_paths(&None, &None);
    assert_eq!(
        paths,
        vec![
            "/opt/homebrew/bin/node".to_string(),
            "/usr/local/bin/node".to_string(),
            "/usr/bin/node".to_string(),
        ]
    );
}

#[test]
fn unix_paths_skip_blank_marker() {
    let home = Some("/home/u".to_string());
    let paths = unix_node_paths(&home, &Some("  \n".to_string()));
    assert_eq!(paths[0], "/opt/homebrew/bin/node");
    assert_eq!(paths.len(), 13);
}

#[test]
fn windows_paths_rank_discovered_sources_first() {
    let home = Some("C:\\Users\\u".to_string());
    let paths = windows_node_paths(
        &home,
        &Some("C:\\Program Files".to_string()),
        &None,
        &Some("C:\\nvm\\current".to_string()),
        &Some("C:\\nvm".to_string()),
        &Some("root: C:\\nvm\r\ncurrent: 22.11.0\r\n".to_string()),
    );
    assert_eq!(paths[0], "C:\\nvm\\v22.11.0\\node.exe");
    assert_eq!(paths[1], "C:\\nvm\\current\\node.exe");
    assert_eq!(paths[2], "C:\\Program Files\\nodejs\\node.exe");
    assert!(paths.contains(&"C:\\Users\\u\\scoop\\apps\\nodejs\\current\\node.exe".to_string()));
}

#[test]
fn later_settings_lines_rank_earlier() {
    let paths = windows_node_paths(
        &None,
        &None,
        &None,
        &None,
        &Some("C:\\nvm".to_string()),
        &Some("current: 20.0.0\ncurrent: 22.0.0\n".to_string()),
    );
    assert_eq!(paths[0], "C:\\nvm\\v22.0.0\\node.exe");
    assert_eq!(paths[1], "C:\\nvm\\v20.0.0\\node.exe");
}

#[test]
fn settings_parse_reads_current_lines() {
    let entries = parse_nvm_settings_current("root: C:\\nvm\r\ncurrent: 22.11.0\r\narch: 64\r\n");
    assert_eq!(entries, vec!["22.11.0".to_string()]);
    assert_eq!(parse_nvm_settings_current("current:   \n"), Vec::<String>::new());
    assert_eq!(parse_nvm_settings_current(""), Vec::<String>::new());
}

#[test]
fn tool_dir_candidates_order() {
    let c = tool_dir_candidates(&Some("/app".to_string()), &Some("/work".to_string()));
    assert_eq!(
        c,
        vec![
            "/app/tool".to_string(),
            "/app/resources/tool".to_string(),
            "/app/../Resources/tool".to_string(),
            "/work/tool".to_string(),
            "/work/../tool".to_string(),
        ]
    );
    assert!(tool_dir_candidates(&None, &None).is_empty());
}

#[test]
fn resolver_prefers_direct_then_first_existing() {
    let paths = vec!["/a/node".to_string(), "/b/node".to_string()];
    let present = vec![false, true];
    assert_eq!(resolve_node_executable(true, &paths, &present), Some("node".to_string()));
    assert_eq!(resolve_node_executable(false, &paths, &present), Some("/b/node".to_string()));
    assert_eq!(resolve_node_executable(false, &paths, &vec![false, false]), None);
}
