use v2neko::proxy::{use_proxy, Proxy, ProxyTrait};
use v2neko::supervisor::{init, CoreAction};

fn sample_proxy(proxy_type: &str) -> Proxy {
    Proxy {
        proxy_id: String::from("id-1"),
        proxy_name: String::from("sample"),
        proxy_type: String::from(proxy_type),
        proxy_upload: 0,
        proxy_download: 0,
        proxy_config_path: String::from("~/.config/v2neko/connections/"),
        proxy_delay: -1,
        proxy_group: String::from("default"),
    }
}

#[test]
fn stop_on_idle_supervisor_is_a_no_op() {
    let mut core = init("/usr/bin/xray");
    assert!(!core.running());
    let act = core.stop();
    assert!(matches!(act, CoreAction::Nothing));
    assert!(!core.running());
}

#[test]
fn start_spawns_with_fixed_config_argument() {
    let mut core = init("/usr/bin/xray");
    let act = core.start();
    assert!(core.running());
    match act {
        CoreAction::Spawn { program, args } => {
            assert_eq!(program, "/usr/bin/xray");
            assert_eq!(args, vec!["-config", "connection.json"]);
        }
        _ => panic!("start must yield a spawn action"),
    }
    let stop_act = core.stop();
    assert!(matches!(stop_act, CoreAction::Kill));
    assert!(!core.running());
}

#[test]
fn restart_is_a_stop_start_pair() {
    let mut core = init("/usr/bin/xray");
    core.start();
    let (first, second) = core.restart();
    assert!(matches!(first, CoreAction::Kill));
    assert!(matches!(second, CoreAction::Spawn { .. }));
    assert!(core.running());
    let mut idle = init("/usr/bin/xray");
    let (first_idle, _) = idle.restart();
    assert!(matches!(first_idle, CoreAction::Nothing));
    assert!(idle.running());
}

#[test]
fn version_probe_and_result() {
    let core = init("/usr/bin/xray");
    match core.check_version() {
        CoreAction::Probe { program, args } => {
            assert_eq!(program, "/usr/bin/xray");
            assert_eq!(args, vec!["-version"]);
        }
        _ => panic!("the probe must name the binary"),
    }
    assert_eq!(
        core.version_result(Some(String::from("Xray 1.7.2"))).unwrap(),
        "Xray 1.7.2"
    );
    let err = core.version_result(None).unwrap_err();
    assert_eq!(err.msg, "failed to run command");
    assert_eq!(err.code, -1);
}

#[test]
fn spawn_failure_returns_to_idle_with_error() {
    let mut core = init("/usr/bin/xray");
    core.start();
    assert!(core.spawn_result(None).is_ok());
    assert!(core.running());
    let err = core
        .spawn_result(Some(String::from("No such file or directory")))
        .unwrap_err();
    assert_eq!(err.msg, "No such file or directory");
    assert_eq!(err.code, -1);
    assert!(!core.running());
    let mut gone = init("/usr/bin/xray");
    gone.start();
    gone.mark_stopped();
    assert!(!gone.running());
}

#[test]
fn poll_output_only_when_running() {
    let mut core = init("/usr/bin/xray");
    assert!(!core.poll_output());
    core.start();
    assert!(core.poll_output());
}

#[test]
fn use_proxy_dispatches_on_type() {
    let core = use_proxy(&sample_proxy("v2ray")).unwrap();
    assert!(!core.running());
    let err = use_proxy(&sample_proxy("shadow")).unwrap_err();
    assert_eq!(err.msg, "在切换代理时遇到了错误：不支持的类型：shadow");
}
