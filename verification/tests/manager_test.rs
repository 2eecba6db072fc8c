use yh_extension_manager_v2::manager::{
    host_api_base_url, layout_from_root, runtime_dirs_to_create, status_snapshot_from_config,
    ConfigPathsEvent, ConfigPathsStep, ExtensionManagerV2ConfigSnapshot, PluginRuntimeManagerV2,
};
use yh_extension_manager_v2::runtime::{RuntimeHandle, RuntimeStatus};

fn config() -> ExtensionManagerV2ConfigSnapshot {
    ExtensionManagerV2ConfigSnapshot {
        enabled: true,
        root_dir: "/data/plugins".to_string(),
        temp_dir: "/tmp/ext".to_string(),
        market_request_timeout_sec: 30,
        allow_sideload: true,
        enable_wasm_runtime: true,
        enable_process_runtime: true,
        enable_docker_runtime: false,
        docker_engine_command: "docker".to_string(),
        host_api_base_url: "http://127.0.0.1:19000/api/v1/plugin-host".to_string(),
    }
}

fn handle(id: &str) -> RuntimeHandle {
    RuntimeHandle {
        plugin_id: id.to_string(),
        runtime_kind: "process".to_string(),
        status: RuntimeStatus::Running,
        detail: String::new(),
        pid: Some(1),
        instance_ref: None,
        route_base_url: None,
    }
}

#[test]
fn layout_under_root() {
    let l = layout_from_root("/data/plugins");
    assert_eq!(l.packages_dir, "/data/plugins/packages");
    assert_eq!(l.state_dir, "/data/plugins/state");
    assert_eq!(l.config_dir, "/data/plugins/config");
    assert_eq!(l.logs_dir, "/data/plugins/logs");
    assert_eq!(l.runtime_dir, "/data/plugins/runtime");
    assert_eq!(l.shared_dir, "/data/plugins/shared");
    assert_eq!(l.cache_dir, "/data/plugins/cache");
}

#[test]
fn host_api_addresses() {
    assert_eq!(host_api_base_url(None), "http://127.0.0.1:19000/api/v1/plugin-host");
    assert_eq!(host_api_base_url(Some(("0.0.0.0", 8080))), "http://127.0.0.1:8080/api/v1/plugin-host");
    assert_eq!(host_api_base_url(Some(("10.1.2.3", 80))), "http://10.1.2.3:80/api/v1/plugin-host");
}

#[test]
fn directories_created_at_start() {
    let s = status_snapshot_from_config(config(), true);
    assert!(s.initialized);
    assert_eq!(s.layout.root_dir, "/data/plugins");
    let dirs = runtime_dirs_to_create(&s.layout, &s.temp_dir, true);
    assert_eq!(dirs.len(), 9);
    assert_eq!(dirs[7], "/tmp/ext");
    assert_eq!(dirs[8], "/tmp/ext/cache");
    assert!(runtime_dirs_to_create(&s.layout, &s.temp_dir, false).is_empty());
}

#[test]
fn runtime_table_records_and_forgets_handles() {
    let mut m = PluginRuntimeManagerV2::new(status_snapshot_from_config(config(), true), None);
    assert_eq!(m.active_runtime_count(), 0);
    m.set_runtime_handle("a", handle("a"));
    m.set_runtime_handle("b", handle("b"));
    assert_eq!(m.get_runtime_handle("a"), Some(handle("a")));
    assert_eq!(m.active_runtime_count(), 2);
    let mut replaced = handle("a");
    replaced.pid = Some(99);
    m.set_runtime_handle("a", replaced.clone());
    assert_eq!(m.active_runtime_count(), 2);
    assert_eq!(m.get_runtime_handle("a"), Some(replaced.clone()));
    let mut listed = m.list_runtime_handles();
    listed.sort_by(|x, y| x.plugin_id.cmp(&y.plugin_id));
    assert_eq!(listed, vec![replaced.clone(), handle("b")]);
    assert_eq!(m.remove_runtime_handle("a"), Some(replaced));
    assert_eq!(m.get_runtime_handle("a"), None);
    assert_eq!(m.remove_runtime_handle("a"), None);
    assert_eq!(m.active_runtime_count(), 1);
}

#[test]
fn host_api_secret_and_config_paths() {
    let m = PluginRuntimeManagerV2::new(status_snapshot_from_config(config(), true), None);
    let secret = m.host_api_secret_base64();
    assert_eq!(secret.len(), 44);
    assert!(secret.ends_with('='));
    let other = PluginRuntimeManagerV2::new(status_snapshot_from_config(config(), true), None);
    assert_ne!(secret, other.host_api_secret_base64());
    let (dir, file) = m.plugin_config_paths("com.demo/x");
    assert_eq!(dir, "/data/plugins/config/com.demo_x");
    assert_eq!(file, "/data/plugins/config/com.demo_x/config.toml");
    assert_eq!(m.docker_engine_command(), "docker");
    assert!(m.db().is_none());
}

#[test]
fn the_host_secret_text_is_fixed_and_decodes_to_32_bytes() {
    let mut m = PluginRuntimeManagerV2::new(status_snapshot_from_config(config(), true), None);
    let s = m.host_api_secret_base64();
    assert_eq!(s.len(), 44);
    assert!(s.ends_with('=') && !s.ends_with("=="));
    assert_eq!(m.host_api_secret().len(), 32);
    m.set_runtime_handle("p", handle("p"));
    let _ = m.remove_runtime_handle("p");
    assert_eq!(m.host_api_secret_base64(), s);
    let other = PluginRuntimeManagerV2::new(status_snapshot_from_config(config(), true), None);
    assert_ne!(other.host_api_secret(), m.host_api_secret());
}

#[test]
fn config_paths_are_made_once() {
    let m = PluginRuntimeManagerV2::new(status_snapshot_from_config(config(), true), None);
    match m.ensure_config_step("com/x", ConfigPathsEvent::Begin) {
        ConfigPathsStep::CreateDir(d) => assert_eq!(d, "/data/plugins/config/com_x"),
        _ => panic!("expected the directory first"),
    }
    match m.ensure_config_step("com/x", ConfigPathsEvent::DirCreated(Ok(()))) {
        ConfigPathsStep::CheckFile(f) => assert_eq!(f, "/data/plugins/config/com_x/config.toml"),
        _ => panic!("expected a file check"),
    }
    match m.ensure_config_step("com/x", ConfigPathsEvent::FileChecked(Ok(false))) {
        ConfigPathsStep::WriteDefault { file, contents } => {
            assert_eq!(file, "/data/plugins/config/com_x/config.toml");
            assert_eq!(contents, "# plugin config\n");
        }
        _ => panic!("expected the default file to be written"),
    }
    let first = m.ensure_config_step("com/x", ConfigPathsEvent::FileWritten(Ok(())));
    let again = m.ensure_config_step("com/x", ConfigPathsEvent::FileChecked(Ok(true)));
    match (first, again) {
        (ConfigPathsStep::Done(Ok(a)), ConfigPathsStep::Done(Ok(b))) => assert_eq!(a, b),
        _ => panic!("expected both runs to give the paths"),
    }
    match m.ensure_config_step("com/x", ConfigPathsEvent::DirCreated(Err("denied".to_string()))) {
        ConfigPathsStep::Done(Err(e)) => {
            assert_eq!(e, "failed to create plugin config dir '/data/plugins/config/com_x': denied")
        }
        _ => panic!("expected the error"),
    }
}
