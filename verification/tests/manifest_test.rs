use yh_extension_manager_v2::manifest::{
    DockerRuntimeManifest, PluginManifest, PluginNetworkManifest, PluginNetworkMode,
    PluginPermission, PluginRuntimeKind, PluginRuntimeManifest, PluginSetupAction,
    PluginSetupStep, ProcessRuntimeManifest, WasmRuntimeManifest,
};

fn process(program: &str) -> ProcessRuntimeManifest {
    ProcessRuntimeManifest {
        program: program.to_string(),
        args: None,
        cwd: None,
        env: None,
        stdin: None,
        base_url: Some("http://127.0.0.1:9000".to_string()),
        network: None,
    }
}

fn manifest(runtime: PluginRuntimeManifest) -> PluginManifest {
    PluginManifest {
        id: "com.demo".to_string(),
        name: "Demo".to_string(),
        version: "1.0.0".to_string(),
        summary: "s".to_string(),
        description: "d".to_string(),
        author: "a".to_string(),
        runtime,
        permissions: vec![],
        tags: vec![],
        ui: None,
        market: None,
        homepage_url: None,
        repository_url: None,
        checksum_sha256: None,
        install_commands: None,
        upgrade_commands: None,
        uninstall_commands: None,
        config_schema: None,
    }
}

fn download(url: Option<&str>, sha: Option<&str>) -> PluginSetupStep {
    PluginSetupStep {
        action: PluginSetupAction::Download,
        url: url.map(|s| s.to_string()),
        source: None,
        dest: Some("a.bin".to_string()),
        archive_format: None,
        strip_components: None,
        mode: None,
        args: None,
        content: None,
        sha256: sha.map(|s| s.to_string()),
        archive: None,
        if_condition: None,
        symlink_target: None,
    }
}

fn docker_with(image: Option<&str>) -> DockerRuntimeManifest {
    DockerRuntimeManifest {
        image: image.map(|s| s.to_string()),
        oci_archive: Some("   ".to_string()),
        compose_file: None,
        command: None,
        args: None,
        env: None,
        ports: None,
        volumes: None,
        workdir: None,
        base_url: None,
        network: None,
    }
}

#[test]
fn permission_keys() {
    assert_eq!(PluginPermission::AuthRead.as_key(), "auth-read");
    assert_eq!(PluginPermission::UserPermissionCheck.as_key(), "user-permission-check");
    assert_eq!(PluginPermission::DbSharedWrite.as_key(), "db-shared-write");
    assert_eq!(PluginPermission::DockerExecution.as_key(), "docker-execution");
}

#[test]
fn runtime_kind_names() {
    assert_eq!(PluginRuntimeKind::WasmComponent.as_kebab_str(), "wasm-component");
    assert_eq!(PluginRuntimeKind::WasmModule.as_kebab_str(), "wasm-module");
    assert_eq!(PluginRuntimeKind::Process.as_kebab_str(), "process");
    assert_eq!(PluginRuntimeKind::Docker.as_kebab_str(), "docker");
    let m = manifest(PluginRuntimeManifest::Process(process("bin/app")));
    assert_eq!(m.runtime_kind(), PluginRuntimeKind::Process);
    assert_eq!(m.runtime_artifact(), Some("bin/app"));
}

#[test]
fn a_complete_manifest_is_valid() {
    assert_eq!(manifest(PluginRuntimeManifest::Process(process("bin/app"))).validate(), Ok(()));
}

#[test]
fn required_fields_are_checked_in_order() {
    let mut m = manifest(PluginRuntimeManifest::Process(process("bin/app")));
    m.name = "  ".to_string();
    m.author = String::new();
    assert_eq!(m.validate(), Err("plugin name is required".to_string()));
    m.name = "n".to_string();
    assert_eq!(m.validate(), Err("plugin author is required".to_string()));
    let mut m = manifest(PluginRuntimeManifest::Process(process("")));
    assert_eq!(m.validate(), Err("process program is required".to_string()));
    m.id = "\t".to_string();
    assert_eq!(m.validate(), Err("plugin id is required".to_string()));
}

#[test]
fn runtime_requirements() {
    let wasm = WasmRuntimeManifest {
        artifact: " ".to_string(),
        entrypoint: None,
        component: None,
        args: None,
        env: None,
        base_url: None,
        network: None,
    };
    assert_eq!(
        manifest(PluginRuntimeManifest::WasmModule(wasm)).validate(),
        Err("wasm artifact is required".to_string())
    );
    assert_eq!(
        manifest(PluginRuntimeManifest::Docker(docker_with(None))).validate(),
        Err("docker runtime requires image, oci_archive, or compose_file".to_string())
    );
    assert_eq!(manifest(PluginRuntimeManifest::Docker(docker_with(Some("nginx")))).validate(), Ok(()));
}

#[test]
fn lifecycle_step_checks() {
    let mut m = manifest(PluginRuntimeManifest::Process(process("bin/app")));
    m.install_commands = Some(vec![download(Some("https://x"), None), download(None, None)]);
    assert_eq!(
        m.validate(),
        Err("install_commands[1].url is required for Download action in install_commands".to_string())
    );
    m.install_commands = None;
    m.uninstall_commands = Some(vec![download(Some("https://x"), Some("abc"))]);
    assert_eq!(
        m.validate(),
        Err("uninstall_commands[0].sha256 must be a 64-character hex string, got 'abc'".to_string())
    );
    let good = "a".repeat(64);
    m.uninstall_commands = Some(vec![download(Some("https://x"), Some(&good))]);
    assert_eq!(m.validate(), Ok(()));
    let bad = format!("{}g", "a".repeat(63));
    m.upgrade_commands = Some(vec![download(Some("https://x"), Some(&bad))]);
    assert_eq!(
        m.validate(),
        Err(format!("upgrade_commands[0].sha256 must be a 64-character hex string, got '{}'", bad))
    );
}

#[test]
fn network_resolution() {
    let n = PluginNetworkManifest { mode: None, port: Some(8080), base_url: None };
    assert_eq!(n.mode(), PluginNetworkMode::Proxy);
    assert_eq!(n.port(), Some(8080));
    assert_eq!(n.base_url(), None);
    let mut p = process("bin/app");
    assert_eq!(p.effective_base_url(), Some("http://127.0.0.1:9000".to_string()));
    p.network = Some(PluginNetworkManifest {
        mode: Some(PluginNetworkMode::Direct),
        port: None,
        base_url: Some("http://10.0.0.1:1".to_string()),
    });
    assert_eq!(p.effective_base_url(), Some("http://10.0.0.1:1".to_string()));
    let r = PluginRuntimeManifest::Process(process("bin/app"));
    let resolved = r.network();
    assert_eq!(resolved.mode, None);
    assert_eq!(resolved.base_url, Some("http://127.0.0.1:9000".to_string()));
    assert_eq!(r.base_url(), Some("http://127.0.0.1:9000".to_string()));
    let r2 = PluginRuntimeManifest::Process(p);
    assert_eq!(r2.network().mode, Some(PluginNetworkMode::Direct));
    assert_eq!(r2.base_url(), Some("http://10.0.0.1:1".to_string()));
}
