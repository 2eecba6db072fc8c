use yh_extension_manager_v2::digest::compute_sha256;
use yh_extension_manager_v2::installer::{
    basic_check_paths, build_default_permission_grants, check_package_checksum,
    choose_archive_kind, condition_holds, condition_probe, detect_archive_format, materialize_result,
    package_dir, parse_octal_mode, plan_registration, plan_setup_step, replaced_version_dir,
    resolve_template_vars, run_failure, safe_join, step_to_run, strip_prefix_components,
    validate_prepared_runtime, validate_prepared_runtime_basic, verify_sha256, ArchiveKind,
    ConditionProbe, InstallPluginOptions, SetupContext, SetupOperation,
};
use yh_extension_manager_v2::manifest::{
    DockerRuntimeManifest, PluginManifest, PluginPermission, PluginRuntimeManifest,
    PluginSetupAction, PluginSetupCondition, PluginSetupStep, ProcessRuntimeManifest,
    WasmRuntimeManifest,
};

fn manifest(runtime: PluginRuntimeManifest) -> PluginManifest {
    PluginManifest {
        id: "com.demo".to_string(),
        name: "Demo App".to_string(),
        version: "1.2.0".to_string(),
        summary: "s".to_string(),
        description: "d".to_string(),
        author: "a".to_string(),
        runtime,
        permissions: vec![PluginPermission::KvRead, PluginPermission::DbSqlite],
        tags: vec![],
        ui: None,
        market: None,
        homepage_url: None,
        repository_url: None,
        checksum_sha256: None,
        install_commands: None,
        upgrade_commands: None,
        uninstall_commands: None,
        config_schema: None,
    }
}

fn wasm(artifact: &str) -> WasmRuntimeManifest {
    WasmRuntimeManifest {
        artifact: artifact.to_string(),
        entrypoint: None,
        component: None,
        args: None,
        env: None,
        base_url: None,
        network: None,
    }
}

fn process(program: &str) -> ProcessRuntimeManifest {
    ProcessRuntimeManifest {
        program: program.to_string(),
        args: None,
        cwd: None,
        env: None,
        stdin: None,
        base_url: None,
        network: None,
    }
}

fn docker(image: Option<&str>, archive: Option<&str>, compose: Option<&str>) -> DockerRuntimeManifest {
    DockerRuntimeManifest {
        image: image.map(|s| s.to_string()),
        oci_archive: archive.map(|s| s.to_string()),
        compose_file: compose.map(|s| s.to_string()),
        command: None,
        args: None,
        env: None,
        ports: None,
        volumes: None,
        workdir: None,
        base_url: None,
        network: None,
    }
}

fn step(action: PluginSetupAction) -> PluginSetupStep {
    PluginSetupStep {
        action,
        url: None,
        source: None,
        dest: None,
        archive_format: None,
        strip_components: None,
        mode: None,
        args: None,
        content: None,
        sha256: None,
        archive: None,
        if_condition: None,
        symlink_target: None,
    }
}

fn context() -> SetupContext {
    SetupContext {
        version: "1.2.0".to_string(),
        plugin_id: "com.demo".to_string(),
        name: "Demo App".to_string(),
        os: "linux".to_string(),
        arch: "x86_64".to_string(),
        download_url_overrides: vec![("1".to_string(), "https://mirror/b.zip".to_string())],
    }
}

const ABC_SHA256: &str = "ba7816bf8f01cfea414140de5dae2223b00361a396177a9cb410ff61f20015ad";

#[test]
fn sha256_of_known_input() {
    assert_eq!(compute_sha256(b"abc"), ABC_SHA256);
    assert_eq!(
        compute_sha256(b""),
        "e3b0c44298fc1c149afbf4c8996fb92427ae41e4649b934ca495991b7852b855"
    );
    assert_eq!(verify_sha256(b"abc", ABC_SHA256), Ok(()));
    assert_eq!(
        verify_sha256(b"abc", "00"),
        Err(format!("SHA-256 mismatch: expected 00 but computed {}", ABC_SHA256))
    );
}

#[test]
fn installer_safe_join() {
    assert_eq!(safe_join("/pkg", "bin/app"), Ok("/pkg/bin/app".to_string()));
    assert_eq!(safe_join("/pkg", "/etc/passwd"), Err("zip entry cannot be absolute: /etc/passwd".to_string()));
    assert_eq!(safe_join("/pkg", "../x"), Err("zip entry cannot escape package root: ../x".to_string()));
    assert_eq!(package_dir("/root/packages", "com.demo", "1.2.0"), "/root/packages/com.demo/1.2.0");
}

#[test]
fn package_checksum_must_match_manifest() {
    let mut m = manifest(PluginRuntimeManifest::Process(process("bin/app")));
    assert_eq!(check_package_checksum(&m, "abc"), Ok(()));
    m.checksum_sha256 = Some("abc".to_string());
    assert_eq!(check_package_checksum(&m, "abc"), Ok(()));
    assert_eq!(
        check_package_checksum(&m, "def"),
        Err("plugin package checksum does not match manifest checksum_sha256".to_string())
    );
}

#[test]
fn default_grants_are_not_granted() {
    let grants = build_default_permission_grants(&vec![PluginPermission::KvRead, PluginPermission::WebSocket]);
    assert_eq!(grants.len(), 2);
    assert_eq!(grants[0].permission_key, "kv-read");
    assert!(!grants[0].granted);
    assert_eq!(grants[1].permission_key, "web-socket");
    assert!(!grants[1].granted);
}

#[test]
fn template_expansion() {
    assert_eq!(
        resolve_template_vars(
            "https://x/{plugin_id}/{version}/{name}-{os}-{arch}.tar.gz",
            "1.2.0",
            "com.demo",
            "Demo App",
            "linux",
            "x86_64",
        ),
        "https://x/com.demo/1.2.0/Demo%20App-linux-amd64.tar.gz"
    );
    assert_eq!(resolve_template_vars("{arch}", "", "", "", "linux", "aarch64"), "aarch64");
}

#[test]
fn step_conditions() {
    let c = PluginSetupCondition::FileNotExists { file_not_exists: "bin/app".to_string() };
    assert_eq!(condition_probe(&c, "/pkg"), ConditionProbe::PathExists("/pkg/bin/app".to_string()));
    assert!(condition_holds(&c, false));
    assert!(!condition_holds(&c, true));
    let e = PluginSetupCondition::EnvNotSet { env_not_set: "SKIP".to_string() };
    assert_eq!(condition_probe(&e, "/pkg"), ConditionProbe::EnvVarSet("SKIP".to_string()));
    let f = PluginSetupCondition::FileExists { file_exists: "x".to_string() };
    assert!(condition_holds(&f, true));
}

#[test]
fn downloads_are_counted_and_overridden() {
    let c = context();
    let mut d = step(PluginSetupAction::Download);
    d.url = Some("https://x/{version}/a.zip".to_string());
    d.dest = Some("a.zip".to_string());
    let (first, next) = step_to_run(&d, &c, true, 0);
    assert_eq!(first.unwrap().url, Some("https://x/1.2.0/a.zip".to_string()));
    assert_eq!(next, 1);
    let (second, next) = step_to_run(&d, &c, true, next);
    assert_eq!(second.unwrap().url, Some("https://mirror/b.zip".to_string()));
    assert_eq!(next, 2);
    let mut skipped = d.clone();
    skipped.if_condition = Some(PluginSetupCondition::FileExists { file_exists: "x".to_string() });
    let (none, same) = step_to_run(&skipped, &c, false, 2);
    assert!(none.is_none());
    assert_eq!(same, 2);
    let mut m = step(PluginSetupAction::Mkdir);
    m.dest = Some("data/{plugin_id}".to_string());
    let (s, n) = step_to_run(&m, &c, true, 5);
    assert_eq!(s.unwrap().dest, Some("data/com.demo".to_string()));
    assert_eq!(n, 5);
}

#[test]
fn octal_modes() {
    assert_eq!(parse_octal_mode("755"), Some(0o755));
    assert_eq!(parse_octal_mode("+644"), Some(0o644));
    assert_eq!(parse_octal_mode("0"), Some(0));
    assert_eq!(parse_octal_mode("8"), None);
    assert_eq!(parse_octal_mode(""), None);
    assert_eq!(parse_octal_mode("+"), None);
    assert_eq!(parse_octal_mode("77777777777"), None);
    assert_eq!(parse_octal_mode("37777777777"), Some(u32::MAX));
}

#[test]
fn setup_operations() {
    let mut d = step(PluginSetupAction::Download);
    assert_eq!(plan_setup_step(&d, "/work", "/pkg", "/pkg"), Err("download action requires url".to_string()));
    d.url = Some("https://x/a.tar.gz".to_string());
    assert_eq!(plan_setup_step(&d, "/work", "/pkg", "/pkg"), Err("download action requires dest".to_string()));
    let mut c = step(PluginSetupAction::Chmod);
    c.source = Some("bin/app".to_string());
    assert_eq!(plan_setup_step(&c, "/work", "/pkg", "/pkg"), Err("chmod action requires mode".to_string()));
    c.mode = Some("755".to_string());
    assert_eq!(
        plan_setup_step(&c, "/work", "/pkg", "/pkg"),
        Ok(SetupOperation::Chmod { path: "/work/bin/app".to_string(), mode: 0o755 })
    );
    let mut w = step(PluginSetupAction::WriteFile);
    w.dest = Some("conf/a.txt".to_string());
    w.content = Some("hi".to_string());
    assert_eq!(
        plan_setup_step(&w, "/work", "/pkg", "/pkg"),
        Ok(SetupOperation::WriteFile { path: "/pkg/conf/a.txt".to_string(), content: "hi".to_string() })
    );
    let t = step(PluginSetupAction::Touch);
    assert_eq!(plan_setup_step(&t, "/work", "/pkg", "/pkg"), Err("touch action requires dest".to_string()));
}

#[test]
fn run_failures_are_described() {
    assert_eq!(run_failure("make", Some(2), "  boom \n"), "command 'make' failed with exit code Some(2): boom");
    assert_eq!(run_failure("make", None, ""), "command 'make' failed with exit code None: ");
    assert_eq!(run_failure("x", Some(-1), "e"), "command 'x' failed with exit code Some(-1): e");
}

#[test]
fn archive_formats() {
    assert_eq!(detect_archive_format("a.TAR.GZ"), Some("tar.gz"));
    assert_eq!(detect_archive_format("a.tgz"), Some("tar.gz"));
    assert_eq!(detect_archive_format("a.zip"), Some("zip"));
    assert_eq!(detect_archive_format("a.gz"), Some("gzip"));
    assert_eq!(detect_archive_format("a.rar"), None);
    assert_eq!(choose_archive_kind(Some("tgz"), "x.bin"), Ok(ArchiveKind::TarGz));
    assert_eq!(choose_archive_kind(Some("7z"), "x.zip"), Ok(ArchiveKind::Zip));
    assert_eq!(choose_archive_kind(None, "x.gz"), Ok(ArchiveKind::Gzip));
    assert_eq!(choose_archive_kind(None, "x.bin"), Err("unsupported archive format: x.bin".to_string()));
}

#[test]
fn strip_components() {
    let comps = vec!["top".to_string(), "bin".to_string(), "app".to_string()];
    assert_eq!(strip_prefix_components(&comps, 1), Some("bin/app".to_string()));
    assert_eq!(strip_prefix_components(&comps, 0), Some("top/bin/app".to_string()));
    assert_eq!(strip_prefix_components(&comps, 3), None);
}

#[test]
fn prepared_runtime_kinds() {
    let m = manifest(PluginRuntimeManifest::WasmComponent(wasm("app.wasm")));
    assert_eq!(validate_prepared_runtime(&m, "/pkg", true), Ok("wasm-component".to_string()));
    assert_eq!(
        validate_prepared_runtime(&m, "/pkg", false),
        Err("wasm runtime artifact not found: /pkg/app.wasm".to_string())
    );
    let m = manifest(PluginRuntimeManifest::WasmModule(wasm("m.wasm")));
    assert_eq!(validate_prepared_runtime(&m, "/pkg", true), Ok("wasm-module".to_string()));
    let m = manifest(PluginRuntimeManifest::Process(process("bin/app")));
    assert_eq!(validate_prepared_runtime(&m, "/pkg", true), Ok("process".to_string()));
    assert_eq!(
        validate_prepared_runtime(&m, "/pkg", false),
        Err("process runtime program not found: /pkg/bin/app".to_string())
    );
    let m = manifest(PluginRuntimeManifest::Docker(docker(None, None, None)));
    assert_eq!(
        validate_prepared_runtime(&m, "/pkg", false),
        Err("docker runtime has no image/archive/compose source".to_string())
    );
    let m = manifest(PluginRuntimeManifest::Docker(docker(Some("nginx"), None, None)));
    assert_eq!(validate_prepared_runtime(&m, "/pkg", false), Ok("docker".to_string()));
}

#[test]
fn basic_runtime_checks() {
    let m = manifest(PluginRuntimeManifest::WasmModule(wasm("m.wasm")));
    assert_eq!(basic_check_paths(&m, "/pkg").artifact, Some("/pkg/m.wasm".to_string()));
    assert_eq!(
        validate_prepared_runtime_basic(&m, false, false, false),
        Err("wasm artifact 'm.wasm' not found in package".to_string())
    );
    let m = manifest(PluginRuntimeManifest::Process(process("bin/app")));
    assert_eq!(
        validate_prepared_runtime_basic(&m, false, true, true),
        Err("process program 'bin/app' not found in package".to_string())
    );
    assert_eq!(validate_prepared_runtime_basic(&m, true, false, false), Ok(()));
    let m = manifest(PluginRuntimeManifest::Docker(docker(None, None, None)));
    assert_eq!(
        validate_prepared_runtime_basic(&m, true, true, true),
        Err("docker runtime must specify image, oci_archive, or compose_file".to_string())
    );
    let m = manifest(PluginRuntimeManifest::Docker(docker(None, Some("img.tar"), Some("compose.yml"))));
    let paths = basic_check_paths(&m, "/pkg");
    assert_eq!(paths.artifact, None);
    assert_eq!(paths.oci_archive, Some("/pkg/img.tar".to_string()));
    assert_eq!(paths.compose_file, Some("/pkg/compose.yml".to_string()));
    assert_eq!(
        validate_prepared_runtime_basic(&m, false, false, true),
        Err("docker oci_archive 'img.tar' not found in package".to_string())
    );
    assert_eq!(
        validate_prepared_runtime_basic(&m, false, true, false),
        Err("docker compose_file 'compose.yml' not found in package".to_string())
    );
    assert_eq!(validate_prepared_runtime_basic(&m, false, true, true), Ok(()));
}

#[test]
fn registration_plan() {
    let options = InstallPluginOptions {
        source_kind: "sideload".to_string(),
        market_origin: None,
        actor_user_id: Some("admin".to_string()),
    };
    let mut m = manifest(PluginRuntimeManifest::WasmComponent(wasm("app.wasm")));
    let plan = plan_registration(&m, "abc", "/root/packages", &options).unwrap();
    assert_eq!(plan.package_dir, "/root/packages/com.demo/1.2.0");
    assert_eq!(plan.version_record.install_status, "pending");
    assert_eq!(plan.version_record.checksum_sha256, Some("abc".to_string()));
    assert_eq!(plan.grants.len(), 2);
    assert_eq!(plan.grants[1].permission_key, "db-sqlite");
    assert_eq!(plan.audit.message, "Registered plugin com.demo 1.2.0 (pending)");
    assert_eq!(plan.audit.actor_user_id, Some("admin".to_string()));
    assert_eq!(plan.result.prepared_runtime_kind, "wasm-component");
    assert_eq!(plan.result.checksum_sha256, "abc");
    m.checksum_sha256 = Some("zzz".to_string());
    assert_eq!(
        plan_registration(&m, "abc", "/root/packages", &options).err(),
        Some("plugin package checksum does not match manifest checksum_sha256".to_string())
    );
}

#[test]
fn materialisation_replaces_older_versions() {
    assert_eq!(
        replaced_version_dir("/pk", "com.demo", &Some("1.0.0".to_string()), "1.2.0"),
        Some("/pk/com.demo/1.0.0".to_string())
    );
    assert_eq!(replaced_version_dir("/pk", "com.demo", &Some("1.2.0".to_string()), "1.2.0"), None);
    assert_eq!(replaced_version_dir("/pk", "com.demo", &None, "1.2.0"), None);
    let r = materialize_result("/pk", "com.demo", "1.2.0", "process".to_string());
    assert_eq!(r.package_dir, "/pk/com.demo/1.2.0");
    assert_eq!(r.checksum_sha256, "");
    assert_eq!(r.prepared_runtime_kind, "process");
}
