use openclaw_manager::config::bootstrap_dirs;
use openclaw_manager::config::bootstrap_subdirs;
use openclaw_manager::config::config_command_result;
use openclaw_manager::config::create_dir_failure_result;
use openclaw_manager::config::gateway_mode_args;
use openclaw_manager::config::CONFIG_DIR_MODE;
use openclaw_manager::detect::check_environment;
use openclaw_manager::orchestrate::advance_phase;
use openclaw_manager::orchestrate::attempt_verified;
use openclaw_manager::orchestrate::best_effort_failures;
use openclaw_manager::orchestrate::default_feature_modules;
use openclaw_manager::orchestrate::escape_applescript_string;
use openclaw_manager::orchestrate::initial_phase;
use openclaw_manager::orchestrate::install_macos_pkg_with_admin;
use openclaw_manager::orchestrate::install_outcome;
use openclaw_manager::orchestrate::parse_host_os;
use openclaw_manager::orchestrate::sync_result;
use openclaw_manager::orchestrate::uninstall_result;
use openclaw_manager::orchestrate::unsupported_os_result;
use openclaw_manager::orchestrate::HostOs;
use openclaw_manager::orchestrate::InstallPhase;
use openclaw_manager::orchestrate::InstallTarget;
use openclaw_manager::orchestrate::StrategyTier;
use openclaw_manager::scripts::linux_terminal_candidates;
use openclaw_manager::scripts::parse_install_target;
use openclaw_manager::scripts::strategy_script;
use openclaw_manager::scripts::terminal_script;
use openclaw_manager::scripts::terminal_script_path;
use openclaw_manager::update::check_openclaw_update;
use openclaw_manager::update::get_latest_openclaw_version;
use openclaw_manager::update::update_result;

#[test]
fn chain_succeeds_on_secondary_after_primary_fails() {
    // Interpreter absent, no offline package bundled: the chain starts at
    // the primary online method.
    let phase = initial_phase(true, false);
    assert_eq!(phase, InstallPhase::Attempting(StrategyTier::PrimaryOnline));

    // The primary method fails verification.
    let phase = advance_phase(StrategyTier::PrimaryOnline, false);
    assert_eq!(phase, InstallPhase::Attempting(StrategyTier::SecondaryOnline));

    // The secondary method runs and a fresh detection pass reports a
    // compliant interpreter.
    let status = check_environment(
        Some("v22.11.0".to_string()),
        None,
        false,
        "linux".to_string(),
    );
    let verified = attempt_verified(InstallTarget::Interpreter, &status);
    assert!(verified);
    let phase = advance_phase(StrategyTier::SecondaryOnline, verified);
    assert_eq!(phase, InstallPhase::Succeeded);

    let outcome = install_outcome(phase, None).unwrap();
    assert!(outcome.success);
    assert!(outcome.error.is_none());
}

#[test]
fn chain_fails_after_all_tiers() {
    let mut phase = initial_phase(true, true);
    assert_eq!(phase, InstallPhase::Attempting(StrategyTier::OfflinePackage));
    phase = advance_phase(StrategyTier::OfflinePackage, false);
    phase = match phase {
        InstallPhase::Attempting(t) => advance_phase(t, false),
        other => other,
    };
    phase = match phase {
        InstallPhase::Attempting(t) => advance_phase(t, false),
        other => other,
    };
    assert_eq!(phase, InstallPhase::Failed);
    let outcome = install_outcome(phase, Some("last error".to_string())).unwrap();
    assert!(!outcome.success);
    assert_eq!(outcome.error, Some("last error".to_string()));
}

#[test]
fn unsupported_os_short_circuits() {
    let phase = initial_phase(false, true);
    assert_eq!(phase, InstallPhase::Failed);
    let r = unsupported_os_result("plan9");
    assert!(!r.success);
    assert_eq!(r.error, Some("Unsupported operating system: plan9".to_string()));
}

#[test]
fn verification_is_per_dependency() {
    let status = check_environment(
        Some("v21.0.0".to_string()),
        Some("1.0.0".to_string()),
        true,
        "macos".to_string(),
    );
    // The interpreter is present but not compliant; the application is fine.
    assert!(!attempt_verified(InstallTarget::Interpreter, &status));
    assert!(attempt_verified(InstallTarget::Application, &status));
}

#[test]
fn host_os_parsing() {
    assert_eq!(parse_host_os("windows"), HostOs::Windows);
    assert_eq!(parse_host_os("macos"), HostOs::Macos);
    assert_eq!(parse_host_os("linux"), HostOs::Linux);
    assert_eq!(parse_host_os("freebsd"), HostOs::Other);
}

#[test]
fn bootstrap_is_deterministic_and_complete() {
    let a = bootstrap_dirs("/home/u/.openclaw");
    let b = bootstrap_dirs("/home/u/.openclaw");
    assert_eq!(a, b);
    assert_eq!(
        a,
        vec![
            "/home/u/.openclaw".to_string(),
            "/home/u/.openclaw/agents/main/sessions".to_string(),
            "/home/u/.openclaw/agents/main/agent".to_string(),
            "/home/u/.openclaw/credentials".to_string(),
        ]
    );
    assert_eq!(
        bootstrap_subdirs(),
        vec![
            "agents/main/sessions".to_string(),
            "agents/main/agent".to_string(),
            "credentials".to_string(),
        ]
    );
    assert_eq!(CONFIG_DIR_MODE, 0o700);
}

#[test]
fn config_results_report_each_failure() {
    let bad = create_dir_failure_result("credentials", "permission denied");
    assert!(!bad.success);
    assert_eq!(bad.message, "Failed to create directory: credentials");
    assert_eq!(bad.error, Some("permission denied".to_string()));

    let ok = config_command_result(&Ok("done".to_string()));
    assert!(ok.success && ok.error.is_none());
    let err = config_command_result(&Err("no such command".to_string()));
    assert!(!err.success);
    assert_eq!(err.error, Some("no such command".to_string()));

    assert_eq!(
        gateway_mode_args(),
        vec![
            "config".to_string(),
            "set".to_string(),
            "gateway.mode".to_string(),
            "local".to_string(),
        ]
    );
}

#[test]
fn uninstall_trusts_the_probe_not_the_exit_status() {
    let gone = uninstall_result(true, "removed", false);
    assert!(gone.success && gone.error.is_none());
    let lingering = uninstall_result(true, "removed?", true);
    assert!(!lingering.success);
    assert_eq!(lingering.error, Some("removed?".to_string()));
    let failed = uninstall_result(false, "npm exploded", true);
    assert!(!failed.success);
    assert_eq!(failed.error, Some("npm exploded".to_string()));
}

#[test]
fn update_check_refuses_to_guess() {
    let not_installed = check_openclaw_update(&None, &None);
    assert!(!not_installed.update_available);
    assert_eq!(not_installed.error, Some("The application is not installed".to_string()));

    let no_registry = check_openclaw_update(&Some("1.0.0".to_string()), &None);
    assert!(!no_registry.update_available);
    assert_eq!(no_registry.current_version, Some("1.0.0".to_string()));
    assert_eq!(no_registry.error, Some("Could not determine the latest version".to_string()));

    let newer = check_openclaw_update(&Some("1.0.0".to_string()), &Some("1.0.1".to_string()));
    assert!(newer.update_available);
    assert!(newer.error.is_none());

    let same = check_openclaw_update(&Some("v2.0.0".to_string()), &Some("1.9.9".to_string()));
    assert!(!same.update_available);
}

#[test]
fn latest_version_comes_from_trimmed_query_output() {
    assert_eq!(get_latest_openclaw_version(&Ok(" 1.4.0\n".to_string())), Some("1.4.0".to_string()));
    assert_eq!(get_latest_openclaw_version(&Ok("  \n".to_string())), None);
    assert_eq!(get_latest_openclaw_version(&Err("offline".to_string())), None);
}

#[test]
fn update_result_reports_the_new_version() {
    let ok = update_result(&Ok("out".to_string()), &Some("1.4.0".to_string()));
    assert!(ok.success);
    assert_eq!(ok.message, "The application was updated to 1.4.0");
    let ok_unknown = update_result(&Ok("out".to_string()), &None);
    assert_eq!(ok_unknown.message, "The application was updated to the latest version");
    let err = update_result(&Err("network down".to_string()), &None);
    assert!(!err.success);
    assert_eq!(err.error, Some("network down".to_string()));
}

#[test]
fn sync_falls_back_from_mirror_to_direct() {
    let via_mirror = sync_result(&Ok("done".to_string()), &None);
    assert!(via_mirror.success);
    let via_direct = sync_result(&Err("mirror 502".to_string()), &Some(Ok("done".to_string())));
    assert!(via_direct.success);
    let both_failed = sync_result(
        &Err("mirror 502".to_string()),
        &Some(Err("direct timeout".to_string())),
    );
    assert!(!both_failed.success);
    assert_eq!(
        both_failed.error,
        Some("mirror error: mirror 502; direct error: direct timeout".to_string())
    );
}

#[test]
fn best_effort_failures_never_change_the_outcome() {
    let results = vec![
        Ok("browser ok".to_string()),
        Err("files failed".to_string()),
        Ok("shell ok".to_string()),
        Err("late failure".to_string()),
    ];
    assert_eq!(
        best_effort_failures(&results),
        vec!["files failed".to_string(), "late failure".to_string()]
    );
    assert_eq!(
        default_feature_modules(),
        vec!["browser".to_string(), "files".to_string(), "shell".to_string()]
    );
}

#[test]
fn applescript_escaping_covers_quotes_and_backslashes() {
    assert_eq!(escape_applescript_string("plain"), "plain");
    assert_eq!(escape_applescript_string("a\"b"), "a\\\"b");
    assert_eq!(escape_applescript_string("a\\b"), "a\\\\b");
}

#[test]
fn admin_install_command_embeds_escaped_path() {
    let cmd = install_macos_pkg_with_admin("/tmp/node pkg/node-v22.pkg");
    assert_eq!(
        cmd,
        "do shell script \"installer -pkg \\\"/tmp/node pkg/node-v22.pkg\\\" -target /\" with administrator privileges"
    );
}

#[test]
fn strategy_scripts_exist_where_the_chain_needs_them() {
    assert!(strategy_script(
        InstallTarget::Interpreter,
        HostOs::Windows,
        StrategyTier::PrimaryOnline
    )
    .is_some());
    assert!(strategy_script(
        InstallTarget::Interpreter,
        HostOs::Windows,
        StrategyTier::SecondaryOnline
    )
    .is_some());
    assert!(strategy_script(
        InstallTarget::Interpreter,
        HostOs::Linux,
        StrategyTier::SecondaryOnline
    )
    .is_some());
    assert!(strategy_script(
        InstallTarget::Interpreter,
        HostOs::Macos,
        StrategyTier::OfflinePackage
    )
    .is_none());
    assert!(strategy_script(
        InstallTarget::Application,
        HostOs::Other,
        StrategyTier::PrimaryOnline
    )
    .is_none());
    let unix = strategy_script(
        InstallTarget::Application,
        HostOs::Linux,
        StrategyTier::PrimaryOnline,
    )
    .unwrap();
    assert!(unix.contains("npm install -g openclaw@latest"));
}

#[test]
fn terminal_fallback_dispatch() {
    assert_eq!(parse_install_target("nodejs"), Some(InstallTarget::Interpreter));
    assert_eq!(parse_install_target("openclaw"), Some(InstallTarget::Application));
    assert_eq!(parse_install_target("python"), None);

    assert!(terminal_script(InstallTarget::Interpreter, HostOs::Windows).is_some());
    assert!(terminal_script(InstallTarget::Interpreter, HostOs::Linux).is_none());
    assert_eq!(
        terminal_script_path(InstallTarget::Application, HostOs::Linux),
        Some("/tmp/openclaw_install_openclaw.sh".to_string())
    );
    assert_eq!(terminal_script_path(InstallTarget::Interpreter, HostOs::Windows), None);
    assert_eq!(
        linux_terminal_candidates(),
        vec![
            "gnome-terminal".to_string(),
            "xfce4-terminal".to_string(),
            "konsole".to_string(),
            "xterm".to_string(),
        ]
    );
}
