use yh_extension_manager_v2::manifest::{
    DockerPortMapping, DockerRuntimeManifest, DockerVolumeMapping, ProcessRuntimeManifest,
    WasmRuntimeManifest,
};
use yh_extension_manager_v2::runtime::docker::{
    docker_instance_name, docker_run_args, docker_start_step, docker_stop_args, docker_stop_result,
    prepare_docker_runtime, DockerRuntimeLaunchContext, DockerStartStage, DockerStartStep,
};
use yh_extension_manager_v2::runtime::process::{
    health_check_step, prepare_process_runtime, process_launch_plan, process_stop_target,
    stale_pid_error, termination_wait_step, HealthCheckStep, TerminationWait,
};
use yh_extension_manager_v2::runtime::wasm::{
    choose_wasm_runner, wasm_start_step, wasm_stop_command, wasm_stop_result, WasmLaunch, WasmStartEvent,
    WasmStartStep,
};
use yh_extension_manager_v2::runtime::{RunReport, RuntimeHandle, RuntimeStatus, SpawnReport};

fn launch() -> DockerRuntimeLaunchContext<'static> {
    DockerRuntimeLaunchContext {
        docker_engine_command: "podman",
        host_api_base_url: "http://127.0.0.1:19000/api/v1/plugin-host",
        host_api_token: "tok",
        plugin_config_dir: "/cfg/p",
        plugin_config_file: "/cfg/p/config.toml",
    }
}

fn docker() -> DockerRuntimeManifest {
    DockerRuntimeManifest {
        image: Some("nginx:1".to_string()),
        oci_archive: None,
        compose_file: None,
        command: Some(vec!["serve".to_string()]),
        args: Some(vec!["--quiet".to_string()]),
        env: Some(vec![("A".to_string(), "1".to_string())]),
        ports: Some(vec![DockerPortMapping { host: None, container: 80, protocol: None }]),
        volumes: Some(vec![DockerVolumeMapping {
            source: "/data".to_string(),
            target: "/srv".to_string(),
            read_only: Some(true),
        }]),
        workdir: None,
        base_url: None,
        network: None,
    }
}

fn handle(pid: Option<u32>, instance: Option<&str>) -> RuntimeHandle {
    RuntimeHandle {
        plugin_id: "p".to_string(),
        runtime_kind: "docker".to_string(),
        status: RuntimeStatus::Running,
        detail: String::new(),
        pid,
        instance_ref: instance.map(|s| s.to_string()),
        route_base_url: None,
    }
}

#[test]
fn docker_names_and_arguments() {
    assert_eq!(docker_instance_name("com.demo.app"), "fileuni-plg-com-demo-app");
    let args = docker_run_args("com.demo", &docker(), "nginx:1", &launch());
    let expected: Vec<String> = [
        "run", "-d", "--rm", "--name", "fileuni-plg-com-demo",
        "-p", "80:80/tcp",
        "-v", "/data:/srv:ro",
        "-e", "A=1",
        "-e", "FILEUNI_PLUGIN_ID=com.demo",
        "-e", "FILEUNI_PLUGIN_HOST_API_BASE_URL=http://127.0.0.1:19000/api/v1/plugin-host",
        "-e", "FILEUNI_PLUGIN_HOST_API_TOKEN=tok",
        "-e", "FILEUNI_PLUGIN_CONFIG_DIR=/cfg/p",
        "-e", "FILEUNI_PLUGIN_CONFIG_FILE=/cfg/p/config.toml",
        "nginx:1", "serve", "--quiet",
    ].iter().map(|s| s.to_string()).collect();
    assert_eq!(args, expected);
}

#[test]
fn docker_prepare_routes_to_the_first_port() {
    let h = prepare_docker_runtime("p", &docker()).unwrap();
    assert_eq!(h.runtime_kind, "docker");
    assert_eq!(h.detail, "nginx:1");
    assert_eq!(h.route_base_url, Some("http://127.0.0.1:80".to_string()));
    let mut none = docker();
    none.image = None;
    assert_eq!(
        prepare_docker_runtime("p", &none),
        Err("docker runtime has no image/archive/compose source".to_string())
    );
}

#[test]
fn docker_start_runs_the_image() {
    match docker_start_step("com.demo", "/pkg", &docker(), &launch(), DockerStartStage::Begin, None) {
        DockerStartStep::Run { stage, command } => {
            assert_eq!(stage, DockerStartStage::AfterRun);
            assert_eq!(command.program, "podman");
            assert_eq!(command.args[0], "run");
        }
        _ => panic!("expected docker run"),
    }
}

#[test]
fn docker_stop() {
    assert_eq!(docker_stop_args(&handle(None, Some("c1"))), Ok(vec!["stop".to_string(), "c1".to_string()]));
    assert_eq!(
        docker_stop_args(&handle(None, None)),
        Err("docker runtime has no container reference to stop".to_string())
    );
    let ok = RunReport::Exited { success: true, status: "exit status: 0".to_string(), stderr: String::new() };
    assert_eq!(docker_stop_result("c1", &ok), Ok(()));
    let bad = RunReport::Exited { success: false, status: "exit status: 1".to_string(), stderr: String::new() };
    assert_eq!(docker_stop_result("c1", &bad), Err("docker stop exited with status exit status: 1".to_string()));
    let spawn = RunReport::SpawnFailed { message: "not found".to_string() };
    assert_eq!(docker_stop_result("c1", &spawn), Err("failed to stop docker runtime 'c1': not found".to_string()));
}

fn process() -> ProcessRuntimeManifest {
    ProcessRuntimeManifest {
        program: "bin/server".to_string(),
        args: Some(vec!["--port".to_string(), "9000".to_string()]),
        cwd: Some("work".to_string()),
        env: Some(vec![("RUST_LOG".to_string(), "info".to_string())]),
        stdin: None,
        base_url: Some("http://127.0.0.1:9000/".to_string()),
        network: None,
    }
}

#[test]
fn process_launch() {
    let plan = process_launch_plan("com.demo", "/pkg", &process(), "http://h", "t", "/c", "/c/f", "/logs");
    assert_eq!(plan.command.program, "/pkg/bin/server");
    assert_eq!(plan.command.args, vec!["--port".to_string(), "9000".to_string()]);
    assert_eq!(plan.command.cwd, Some("/pkg/work".to_string()));
    assert_eq!(plan.command.env[0], ("RUST_LOG".to_string(), "info".to_string()));
    assert_eq!(plan.command.env[1], ("FILEUNI_PLUGIN_ID".to_string(), "com.demo".to_string()));
    assert_eq!(plan.command.env.len(), 6);
    assert_eq!(plan.log_path, "/logs/com.demo.log");
    assert_eq!(plan.health_url, Some("http://127.0.0.1:9000/health".to_string()));
    let h = prepare_process_runtime("com.demo", "/pkg", &process(), true).unwrap();
    assert_eq!(h.detail, "/pkg/bin/server");
    assert_eq!(h.route_base_url, Some("http://127.0.0.1:9000/".to_string()));
}

#[test]
fn process_health_and_stop() {
    assert_eq!(health_check_step("p", 1, true), HealthCheckStep::Ready);
    assert_eq!(health_check_step("p", 3, false), HealthCheckStep::RetryAfterMs(500));
    assert_eq!(
        health_check_step("p", 15, false),
        HealthCheckStep::GiveUp("process runtime 'p' health check failed after 15 retries".to_string())
    );
    assert_eq!(termination_wait_step(false, 0), TerminationWait::Exited);
    assert_eq!(termination_wait_step(true, 9_999), TerminationWait::PollAfterMs(100));
    assert_eq!(termination_wait_step(true, 10_000), TerminationWait::ForceKill);
    assert_eq!(process_stop_target(&handle(Some(42), None)), Ok(42));
    assert_eq!(process_stop_target(&handle(None, None)), Err("process runtime has no pid to stop".to_string()));
    assert_eq!(stale_pid_error(7), "pid 7 does not belong to the expected process or has been reused");
}

#[test]
fn wasm_runner_and_stop() {
    assert_eq!(choose_wasm_runner(true, Some("wasmtime-c".to_string()), Some("w".to_string())), "wasmtime-c");
    assert_eq!(choose_wasm_runner(false, Some("wasmtime-c".to_string()), Some("w".to_string())), "w");
    assert_eq!(choose_wasm_runner(false, None, None), "wasmtime");
    let cmd = wasm_stop_command(&handle(Some(12), None)).unwrap();
    assert_eq!(cmd.program, "kill");
    assert_eq!(cmd.args, vec!["12".to_string()]);
    assert_eq!(wasm_stop_command(&handle(None, None)).err(), Some("wasm runtime has no pid to stop".to_string()));
    let spawn = RunReport::SpawnFailed { message: "boom".to_string() };
    assert_eq!(wasm_stop_result(12, &spawn), Err("failed to stop wasm runtime pid 12: boom".to_string()));
}

#[test]
fn a_started_container_is_stopped_by_its_name() {
    let step = docker_start_step(
        "com.demo",
        "/pkg",
        &docker(),
        &launch(),
        DockerStartStage::AfterRun,
        Some(RunReport::Exited { success: true, status: "exit status: 0".to_string(), stderr: String::new() }),
    );
    let handle = match step {
        DockerStartStep::Done(Ok(h)) => h,
        _ => panic!("expected a running container"),
    };
    assert_eq!(handle.instance_ref, Some("fileuni-plg-com-demo".to_string()));
    assert_eq!(handle.status, RuntimeStatus::Running);
    assert_eq!(docker_stop_args(&handle), Ok(vec!["stop".to_string(), "fileuni-plg-com-demo".to_string()]));
}

#[test]
fn a_started_wasm_runtime_has_its_pid() {
    let runtime = WasmRuntimeManifest {
        artifact: "app.wasm".to_string(),
        entrypoint: None,
        component: None,
        args: None,
        env: None,
        base_url: None,
        network: None,
    };
    let l = WasmLaunch {
        plugin_id: "p",
        install_root: "/pkg",
        runner: "wasmtime",
        is_component: true,
        host_api_base_url: "http://h",
        host_api_token: "t",
        plugin_config_dir: "/c",
        plugin_config_file: "/c/f",
    };
    match wasm_start_step(&l, &runtime, WasmStartEvent::Begin) {
        WasmStartStep::CheckArtifact(path) => assert_eq!(path, "/pkg/app.wasm"),
        _ => panic!("expected an artifact check"),
    }
    match wasm_start_step(&l, &runtime, WasmStartEvent::ArtifactChecked { exists: true }) {
        WasmStartStep::SpawnRunner(command) => {
            assert_eq!(command.program, "wasmtime");
            assert_eq!(command.args, vec!["run".to_string(), "/pkg/app.wasm".to_string()]);
        }
        _ => panic!("expected the runner to be spawned"),
    }
    match wasm_start_step(&l, &runtime, WasmStartEvent::RunnerSpawn(SpawnReport::Spawned { pid: Some(41) })) {
        WasmStartStep::Done(Ok(h)) => {
            assert_eq!(h.pid, Some(41));
            assert_eq!(h.runtime_kind, "wasm-component");
            assert_eq!(wasm_stop_command(&h).unwrap().args, vec!["41".to_string()]);
        }
        _ => panic!("expected a running runtime"),
    }
    match wasm_start_step(
        &l,
        &runtime,
        WasmStartEvent::RunnerSpawn(SpawnReport::SpawnFailed { not_found: true, message: "nf".to_string() }),
    ) {
        WasmStartStep::CheckFallback(path) => assert_eq!(path, "/pkg/runtime/app-dev-server"),
        _ => panic!("expected the development fallback to be checked"),
    }
    match wasm_start_step(&l, &runtime, WasmStartEvent::FallbackSpawn(SpawnReport::Spawned { pid: Some(7) })) {
        WasmStartStep::Done(Ok(h)) => {
            assert_eq!(h.pid, Some(7));
            assert_eq!(h.instance_ref, Some("wasmtime (dev-fallback)".to_string()));
            assert_eq!(h.detail, "/pkg/runtime/app-dev-server");
        }
        _ => panic!("expected the fallback to run"),
    }
}
