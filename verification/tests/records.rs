use openclaw_manager::model::AITestResult;
use openclaw_manager::model::ChannelTestResult;
use openclaw_manager::model::DiagnosticResult;
use openclaw_manager::model::InstallProgress;
use openclaw_manager::model::SystemInfo;

#[test]
fn install_progress_carries_step_state() {
    let p = InstallProgress {
        step: "download".to_string(),
        progress: 40,
        message: "fetching installer".to_string(),
        error: None,
    };
    assert_eq!(p.step, "download");
    assert_eq!(p.progress, 40);
    assert!(p.error.is_none());
}

#[test]
fn system_info_holds_detection_fields() {
    let s = SystemInfo {
        os: "linux".to_string(),
        os_version: "6.1".to_string(),
        arch: "x86_64".to_string(),
        openclaw_installed: true,
        openclaw_version: Some("1.0.0".to_string()),
        node_version: Some("v22.1.0".to_string()),
        config_dir: "/home/u/.openclaw".to_string(),
    };
    assert!(s.openclaw_installed);
    assert_eq!(s.arch, "x86_64");
}

#[test]
fn diagnostic_and_test_records_round_out_the_model() {
    let d = DiagnosticResult {
        name: "node".to_string(),
        passed: false,
        message: "not found".to_string(),
        suggestion: Some("run the interpreter install".to_string()),
    };
    assert!(!d.passed);

    let a = AITestResult {
        success: true,
        provider: "anthropic".to_string(),
        model: "m".to_string(),
        response: Some("pong".to_string()),
        error: None,
        latency_ms: Some(120),
    };
    assert!(a.success && a.error.is_none());

    let c = ChannelTestResult {
        success: false,
        channel: "email".to_string(),
        message: "unreachable".to_string(),
        error: Some("timeout".to_string()),
    };
    assert!(!c.success && c.error.is_some());
}
