use yh_extension_manager_v2::handlers::{
    default_nav_icon, default_nav_item, default_nav_position, package_runtime_dir,
    plugin_layout_dirs, plugin_sqlite_root, require_active_handle, require_current_version,
    require_plugin_record, require_running_handle, require_version_row, sanitize_fs_component,
    start_plugin_begin, start_plugin_step, stop_method, stop_plugin_begin, stop_plugin_step,
    uninstall_plugin_begin, uninstall_plugin_step, uninstalled_handle, AdminErrorKind,
    PluginDataTable, StartPluginAction, StartPluginEvent, StartPluginStage, StopMethod,
    StopPluginAction, StopPluginEvent, StopPluginStage, UninstallAction, UninstallEvent, UninstallStage,
};
use yh_extension_manager_v2::manager::layout_from_root;
use yh_extension_manager_v2::manifest::{
    PluginManifest, PluginRuntimeKind, PluginRuntimeManifest, PluginUiManifest,
    ProcessRuntimeManifest,
};
use yh_extension_manager_v2::registry::{PluginRegistryRecord, PluginVersionRecord};
use yh_extension_manager_v2::runtime::{RuntimeHandle, RuntimeStatus};

fn manifest_with_ui(ui: Option<PluginUiManifest>) -> PluginManifest {
    PluginManifest {
        id: "com.demo.chat".to_string(),
        name: "Demo Chat".to_string(),
        version: "1.0.0".to_string(),
        summary: "s".to_string(),
        description: "d".to_string(),
        author: "a".to_string(),
        runtime: PluginRuntimeManifest::Process(ProcessRuntimeManifest {
            program: "bin/app".to_string(),
            args: None,
            cwd: None,
            env: None,
            stdin: None,
            base_url: None,
            network: None,
        }),
        permissions: vec![],
        tags: vec![],
        ui,
        market: None,
        homepage_url: None,
        repository_url: None,
        checksum_sha256: None,
        install_commands: None,
        upgrade_commands: None,
        uninstall_commands: None,
        config_schema: None,
    }
}

fn record(version: Option<&str>) -> PluginRegistryRecord {
    PluginRegistryRecord {
        id: "p".to_string(),
        display_name: "P".to_string(),
        runtime_kind: "process".to_string(),
        source_kind: "sideload".to_string(),
        current_version: version.map(|v| v.to_string()),
        install_status: "installed".to_string(),
        enabled: false,
        market_origin: None,
    }
}

fn handle(kind: &str) -> RuntimeHandle {
    RuntimeHandle {
        plugin_id: "p".to_string(),
        runtime_kind: kind.to_string(),
        status: RuntimeStatus::Running,
        detail: "d".to_string(),
        pid: Some(7),
        instance_ref: None,
        route_base_url: None,
    }
}

#[test]
fn fs_component_sanitising() {
    assert_eq!(sanitize_fs_component("com.demo/../x"), "com.demo_.._x");
    assert_eq!(sanitize_fs_component("ok-1_2.3"), "ok-1_2.3");
}

#[test]
fn nav_icons_and_position() {
    assert_eq!(default_nav_icon("com.demo.chat"), "MessageSquare");
    assert_eq!(default_nav_icon("email-client"), "Mail");
    assert_eq!(default_nav_icon("my.todo"), "ListTodo");
    assert_eq!(default_nav_icon("chat-email"), "MessageSquare");
    assert_eq!(default_nav_icon("notes"), "PlugZap");
    assert_eq!(default_nav_position("anything"), "sidebar");
}

#[test]
fn default_nav_item_for_ui_plugins() {
    assert_eq!(default_nav_item("p", &manifest_with_ui(None)), None);
    let ui = PluginUiManifest { root: "dist".to_string(), mount_path: Some("  ".to_string()), sandboxed: None };
    let item = default_nav_item("com.demo.chat", &manifest_with_ui(Some(ui))).unwrap();
    assert_eq!(item.item_key, "main");
    assert_eq!(item.label, "Demo Chat");
    assert_eq!(item.route, "/");
    assert_eq!(item.icon, "MessageSquare");
    assert_eq!(item.visibility, "user");
    assert_eq!(item.group_key, Some("plugins".to_string()));
    assert_eq!(item.position, Some("sidebar".to_string()));
    assert_eq!(item.required_permission, None);
    assert_eq!(item.sort_order, 100);
    let ui = PluginUiManifest { root: "dist".to_string(), mount_path: Some("/chat".to_string()), sandboxed: None };
    assert_eq!(default_nav_item("x", &manifest_with_ui(Some(ui))).unwrap().route, "/chat");
}

#[test]
fn required_records() {
    let e = require_plugin_record("p", None).unwrap_err();
    assert_eq!(e.kind, AdminErrorKind::NotFound);
    assert_eq!(e.message, "Plugin 'p' not found");
    let e = require_current_version("p", &record(None)).unwrap_err();
    assert_eq!(e.kind, AdminErrorKind::BadRequest);
    assert_eq!(e.message, "Plugin 'p' has no installed version");
    assert_eq!(require_current_version("p", &record(Some("1.0"))), Ok("1.0".to_string()));
    let e = require_version_row("p", None).unwrap_err();
    assert_eq!(e.message, "Plugin 'p' current version record not found");
    let e = require_running_handle("p", None).unwrap_err();
    assert_eq!(e.message, "Plugin 'p' runtime is not running");
    let e = require_active_handle("p", None).unwrap_err();
    assert_eq!(e.message, "Plugin 'p' runtime is not active");
    assert_eq!(require_active_handle("p", Some(handle("process"))), Ok(handle("process")));
}

#[test]
fn stop_methods() {
    assert_eq!(stop_method("process"), StopMethod::Process);
    assert_eq!(stop_method("docker"), StopMethod::Docker);
    assert_eq!(stop_method("wasm-component"), StopMethod::Wasm);
    assert_eq!(stop_method("wasm-module"), StopMethod::Wasm);
    assert_eq!(stop_method(""), StopMethod::Nothing);
}

#[test]
fn uninstall_directories() {
    assert_eq!(plugin_sqlite_root("/tmp/x", "com/demo"), "/tmp/x/extension/sqlite/com_demo");
    assert_eq!(package_runtime_dir("/pk/p/1.0"), "/pk/p/1.0/runtime");
    let layout = layout_from_root("/data/plugins");
    assert_eq!(plugin_layout_dirs(&layout, "com.demo"), vec![
        "/data/plugins/packages/com.demo".to_string(),
        "/data/plugins/config/com.demo".to_string(),
        "/data/plugins/state/com.demo".to_string(),
        "/data/plugins/logs/com.demo".to_string(),
        "/data/plugins/runtime/com.demo".to_string(),
        "/data/plugins/shared/com.demo".to_string(),
    ]);
    let h = uninstalled_handle("p".to_string(), "docker".to_string());
    assert_eq!(h.status, RuntimeStatus::Stopped);
    assert_eq!(h.runtime_kind, "docker");
    assert_eq!(h.detail, "");
    assert_eq!(h.pid, None);
}

#[test]
fn start_plugin_runs_through_its_stages() {
    let s = start_plugin_begin("p", false);
    assert_eq!(s.stage, StartPluginStage::AwaitRegistry);
    let (s, a) = start_plugin_step(s, StartPluginEvent::RegistryLoaded(Ok(Some(record(Some("1.0"))))), &None);
    assert!(matches!(a, StartPluginAction::LoadVersion { ref version } if version == "1.0"));
    let row = PluginVersionRecord {
        plugin_id: "p".to_string(),
        version: "1.0".to_string(),
        package_path: "/pk/p/1.0".to_string(),
        checksum_sha256: None,
        install_status: "installed".to_string(),
        installed: true,
    };
    let (s, a) = start_plugin_step(s, StartPluginEvent::VersionLoaded(Ok(Some(row))), &None);
    assert!(matches!(a, StartPluginAction::ReadManifest { ref install_root } if install_root == "/pk/p/1.0"));
    let (s, a) = start_plugin_step(s, StartPluginEvent::ManifestRead(Ok(PluginRuntimeKind::Process)), &None);
    assert!(matches!(a, StartPluginAction::EnsureConfigPaths));
    let (s, a) = start_plugin_step(
        s,
        StartPluginEvent::ConfigPathsReady(Ok(("/c/p".to_string(), "/c/p/config.toml".to_string()))),
        &None,
    );
    match a {
        StartPluginAction::Launch { kind, install_root, config_dir, config_file } => {
            assert_eq!(kind, PluginRuntimeKind::Process);
            assert_eq!(install_root, "/pk/p/1.0");
            assert_eq!(config_dir, "/c/p");
            assert_eq!(config_file, "/c/p/config.toml");
        }
        _ => panic!("expected a launch"),
    }
    let actor = Some("admin".to_string());
    let (s, a) = start_plugin_step(s, StartPluginEvent::Launched(Ok(handle("process"))), &actor);
    assert_eq!(s.stage, StartPluginStage::Finished);
    match a {
        StartPluginAction::Finish { handle: h, install_status, audit } => {
            assert_eq!(h, handle("process"));
            assert_eq!(install_status, "running");
            assert_eq!(audit.message, "Started plugin p");
            assert_eq!(audit.action, "start");
            assert_eq!(audit.actor_user_id, actor);
        }
        _ => panic!("expected the start to finish"),
    }
}

#[test]
fn start_plugin_failures() {
    let (s, a) = start_plugin_step(start_plugin_begin("p", false), StartPluginEvent::RegistryLoaded(Ok(None)), &None);
    assert_eq!(s.stage, StartPluginStage::Finished);
    match a {
        StartPluginAction::Fail(e) => {
            assert_eq!(e.kind, AdminErrorKind::NotFound);
            assert_eq!(e.message, "Plugin 'p' not found");
        }
        _ => panic!("expected a failure"),
    }
    let (_, a) = start_plugin_step(start_plugin_begin("p", false), StartPluginEvent::RegistryLoaded(Err("db".to_string())), &None);
    assert!(matches!(a, StartPluginAction::Fail(ref e) if e.message == "Failed to load plugin registry" && e.kind == AdminErrorKind::Internal));
    let (_, a) = start_plugin_step(start_plugin_begin("p", false), StartPluginEvent::RegistryLoaded(Ok(Some(record(None)))), &None);
    assert!(matches!(a, StartPluginAction::Fail(ref e) if e.message == "Plugin 'p' has no installed version"));
}

#[test]
fn sanitised_names_are_single_stable_components() {
    for name in ["com.demo/../x", "a b/c", "ok", "", "..//.."] {
        let once = sanitize_fs_component(name);
        assert_eq!(sanitize_fs_component(&once), once);
        assert!(!once.contains('/'));
    }
}

fn record_with_status(status: &str) -> PluginRegistryRecord {
    let mut r = record(Some("1.0"));
    r.install_status = status.to_string();
    r
}

#[test]
fn start_refuses_a_pending_or_running_plugin() {
    let (s, a) = start_plugin_step(
        start_plugin_begin("p", false),
        StartPluginEvent::RegistryLoaded(Ok(Some(record_with_status("pending")))),
        &None,
    );
    assert_eq!(s.stage, StartPluginStage::Finished);
    assert!(matches!(a, StartPluginAction::Fail(ref e) if e.message == "Plugin 'p' is not installed" && e.kind == AdminErrorKind::BadRequest));
    let (_, a) = start_plugin_step(
        start_plugin_begin("p", true),
        StartPluginEvent::RegistryLoaded(Ok(Some(record_with_status("installed")))),
        &None,
    );
    assert!(matches!(a, StartPluginAction::Fail(ref e) if e.message == "Plugin 'p' is already running"));
}

#[test]
fn a_failed_launch_is_audited() {
    let mut s = start_plugin_begin("p", false);
    s.stage = StartPluginStage::AwaitLaunch;
    let actor = Some("admin".to_string());
    let (s, a) = start_plugin_step(s, StartPluginEvent::Launched(Err("spawn failed".to_string())), &actor);
    assert_eq!(s.stage, StartPluginStage::Finished);
    match a {
        StartPluginAction::LaunchFailed { error, audit } => {
            assert_eq!(error.kind, AdminErrorKind::Internal);
            assert_eq!(error.message, "spawn failed");
            assert_eq!(audit.plugin_id, "p");
            assert_eq!(audit.action, "start_failed");
            assert_eq!(audit.message, "Failed to start plugin p: spawn failed");
            assert_eq!(audit.actor_user_id, actor);
        }
        _ => panic!("expected an audited failure"),
    }
}

#[test]
fn stop_keeps_the_handle_until_the_runtime_stops() {
    let (s, a) = stop_plugin_step(
        stop_plugin_begin("p"),
        StopPluginEvent::Looked { registry: Ok(Some(record_with_status("running"))), handle: Some(handle("docker")) },
        &None,
    );
    assert_eq!(s.stage, StopPluginStage::AwaitStop);
    assert_eq!(s.handle, Some(handle("docker")));
    assert!(matches!(a, StopPluginAction::StopRuntime { ref handle, method: StopMethod::Docker } if handle.runtime_kind == "docker"));
    let (s2, a2) = stop_plugin_step(
        s.clone(),
        StopPluginEvent::Stopped(Err("busy".to_string())),
        &None,
    );
    assert_eq!(s2.handle, Some(handle("docker")));
    match a2 {
        StopPluginAction::StopFailed { error, audit } => {
            assert_eq!(error.message, "busy");
            assert_eq!(audit.action, "stop_failed");
            assert_eq!(audit.message, "Failed to stop plugin p: busy");
        }
        _ => panic!("expected an audited stop failure"),
    }
    let actor = Some("u".to_string());
    let (s3, a3) = stop_plugin_step(s, StopPluginEvent::Stopped(Ok(())), &actor);
    assert_eq!(s3.stage, StopPluginStage::Finished);
    match a3 {
        StopPluginAction::Finish { handle: h, install_status, audit } => {
            assert_eq!(h, handle("docker"));
            assert_eq!(install_status, "installed");
            assert_eq!(audit.action, "stop");
            assert_eq!(audit.message, "Stopped plugin p");
            assert_eq!(audit.actor_user_id, actor);
        }
        _ => panic!("expected the stop to finish"),
    }
}

#[test]
fn stop_refuses_what_is_not_running() {
    let (_, a) = stop_plugin_step(
        stop_plugin_begin("p"),
        StopPluginEvent::Looked { registry: Ok(Some(record_with_status("installed"))), handle: Some(handle("process")) },
        &None,
    );
    assert!(matches!(a, StopPluginAction::Fail(ref e) if e.message == "Plugin 'p' is not running" && e.kind == AdminErrorKind::BadRequest));
    let (_, a) = stop_plugin_step(
        stop_plugin_begin("p"),
        StopPluginEvent::Looked { registry: Ok(Some(record_with_status("running"))), handle: None },
        &None,
    );
    assert!(matches!(a, StopPluginAction::Fail(ref e) if e.message == "Plugin 'p' runtime is not running" && e.kind == AdminErrorKind::NotFound));
    let (_, a) = stop_plugin_step(
        stop_plugin_begin("p"),
        StopPluginEvent::Looked { registry: Ok(None), handle: None },
        &None,
    );
    assert!(matches!(a, StopPluginAction::Fail(ref e) if e.message == "Plugin 'p' not found"));
}

#[test]
fn uninstall_stops_then_clears_in_order() {
    let layout = layout_from_root("/data/plugins");
    let s = uninstall_plugin_begin("com.demo", Some("/tmp"), Some(&layout));
    assert_eq!(s.stage, UninstallStage::AwaitRuntime);
    assert_eq!(s.sqlite_root, Some("/tmp/extension/sqlite/com.demo".to_string()));
    let (s, a) = uninstall_plugin_step(s, UninstallEvent::RuntimeLooked(Some(handle("process"))), &None);
    assert!(matches!(a, UninstallAction::StopRuntime { method: StopMethod::Process, .. }));
    let (s, a) = uninstall_plugin_step(s, UninstallEvent::Stopped(Ok(())), &None);
    match a {
        UninstallAction::ClearRuntimeAndLoadRegistry { remove_handle, sqlite_root } => {
            assert!(remove_handle);
            assert_eq!(sqlite_root, Some("/tmp/extension/sqlite/com.demo".to_string()));
        }
        _ => panic!("expected the runtime to be cleared"),
    }
    let mut rec = record(Some("1.0"));
    rec.runtime_kind = "docker".to_string();
    let (s, a) = uninstall_plugin_step(s, UninstallEvent::RegistryLoaded(Ok(Some(rec))), &None);
    assert!(matches!(a, UninstallAction::LoadVersion { ref version } if version == "1.0"));
    let row = PluginVersionRecord {
        plugin_id: "com.demo".to_string(),
        version: "1.0".to_string(),
        package_path: "/data/plugins/packages/com.demo/1.0".to_string(),
        checksum_sha256: None,
        install_status: "installed".to_string(),
        installed: true,
    };
    let actor = Some("admin".to_string());
    let (s, a) = uninstall_plugin_step(s, UninstallEvent::VersionLoaded(Ok(Some(row))), &actor);
    assert_eq!(s.stage, UninstallStage::Finished);
    match a {
        UninstallAction::Finish { package, dirs, tables, audit, handle } => {
            assert_eq!(
                package,
                Some((
                    "/data/plugins/packages/com.demo/1.0/runtime".to_string(),
                    "/data/plugins/packages/com.demo/1.0".to_string()
                ))
            );
            assert_eq!(dirs.len(), 6);
            assert_eq!(dirs[1], "/data/plugins/config/com.demo");
            assert_eq!(tables.first(), Some(&PluginDataTable::PermissionGrants));
            assert_eq!(tables.last(), Some(&PluginDataTable::Registry));
            assert_eq!(tables.len(), 7);
            assert_eq!(audit.action, "uninstall");
            assert_eq!(audit.message, "Uninstalled plugin com.demo");
            assert_eq!(audit.actor_user_id, actor);
            assert_eq!(handle.runtime_kind, "docker");
            assert_eq!(handle.status, RuntimeStatus::Stopped);
        }
        _ => panic!("expected the uninstall to finish"),
    }
}

#[test]
fn uninstall_ends_when_the_runtime_does_not_stop() {
    let s = uninstall_plugin_begin("p", None, None);
    assert_eq!(s.sqlite_root, None);
    assert!(s.layout_dirs.is_empty());
    let (s, _) = uninstall_plugin_step(s, UninstallEvent::RuntimeLooked(Some(handle("wasm-module"))), &None);
    let (s, a) = uninstall_plugin_step(s, UninstallEvent::Stopped(Err("still there".to_string())), &None);
    assert_eq!(s.stage, UninstallStage::Finished);
    assert!(s.handle.is_some());
    assert!(matches!(a, UninstallAction::StopFailed { ref audit, .. } if audit.message == "Failed to stop plugin p: still there"));
    let s = uninstall_plugin_begin("p", None, None);
    let (s, a) = uninstall_plugin_step(s, UninstallEvent::RuntimeLooked(None), &None);
    assert!(matches!(a, UninstallAction::ClearRuntimeAndLoadRegistry { remove_handle: false, sqlite_root: None }));
    let (_, a) = uninstall_plugin_step(s, UninstallEvent::RegistryLoaded(Ok(None)), &None);
    assert!(matches!(a, UninstallAction::Fail(ref e) if e.message == "Plugin 'p' not found"));
}
